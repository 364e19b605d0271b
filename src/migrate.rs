use vstd::prelude::*;
use vstd::string::{StringExecFns, StringSliceAdditionalSpecFns};
use vstd::utf8::*;

verus! {

/// Which schema script to run at start-up.
#[derive(Clone, Copy, PartialEq, Eq, Structural, Debug)]
pub enum Migration {
    Skip,
    Up,
    Down,
}

/// The code of a character once ASCII upper-case letters are made lower case.
pub open spec fn lower(c: char) -> u32 {
    if 'A' <= c && c <= 'Z' {
        ((c as u32) + 32) as u32
    } else {
        c as u32
    }
}

pub open spec fn lower_seq(s: Seq<char>) -> Seq<u32> {
    s.map_values(|c: char| lower(c))
}

/// Whether two texts are equal up to ASCII case.
pub open spec fn same_ignoring_case(a: Seq<char>, b: Seq<char>) -> bool {
    lower_seq(a) == lower_seq(b)
}

/// The migration that a name chooses, ignoring ASCII case.
pub open spec fn migration_named(s: Seq<char>) -> Option<Migration> {
    if same_ignoring_case(s, "up"@) {
        Some(Migration::Up)
    } else if same_ignoring_case(s, "down"@) {
        Some(Migration::Down)
    } else if same_ignoring_case(s, "none"@) {
        Some(Migration::Skip)
    } else {
        None
    }
}

fn lower_char(c: char) -> (r: u32)
    ensures
        r == lower(c),
{
    if 'A' <= c && c <= 'Z' {
        (c as u32) + 32
    } else {
        c as u32
    }
}

fn same_codes(v: &Vec<u32>, w: &[u32]) -> (r: bool)
    ensures
        r == (v@ == w@),
{
    if v.len() != w.len() {
        return false;
    }
    let mut i: usize = 0;
    while i < v.len()
        invariant
            v.len() == w.len(),
            i <= v.len(),
            forall|j: int| 0 <= j < i ==> v@[j] == w@[j],
        decreases v.len() - i,
    {
        if v[i] != w[i] {
            return false;
        }
        i = i + 1;
    }
    proof {
        assert(v@ =~= w@);
    }
    true
}

/// Byte that ends one statement of a schema script.
pub const STATEMENT_END: u8 = 59;

/// The pieces, each followed by the statement end.
pub open spec fn terminated(ps: Seq<Seq<u8>>) -> Seq<u8>
    decreases ps.len(),
{
    if ps.len() == 0 {
        Seq::empty()
    } else {
        terminated(ps.drop_last()) + ps.last() + seq![STATEMENT_END]
    }
}

/// The pieces put back together, the statement end between two of them.
pub open spec fn joined(ps: Seq<Seq<u8>>) -> Seq<u8> {
    if ps.len() == 0 {
        Seq::empty()
    } else {
        terminated(ps.drop_last()) + ps.last()
    }
}

/// The UTF-8 bytes of each text.
pub open spec fn texts_bytes(ps: Seq<String>) -> Seq<Seq<u8>> {
    ps.map_values(|p: String| encode_utf8(p@))
}

/// Cuts a schema script at each statement end, keeping the text between:
/// the pieces, joined again by statement ends, give back the script, and no
/// piece holds a statement end.
pub fn split_statements(script: &str) -> (r: Vec<String>)
    ensures
        r.len() >= 1,
        joined(texts_bytes(r@)) == script.spec_bytes(),
        forall|i: int| 0 <= i < r.len() ==> !(#[trigger] encode_utf8(r@[i]@)).contains(STATEMENT_END),
{
    let mut pieces: Vec<String> = Vec::new();
    let mut rest: &str = script;
    loop
        invariant
            terminated(texts_bytes(pieces@)) + rest.spec_bytes() == script.spec_bytes(),
            forall|i: int| 0 <= i < pieces.len() ==> !(#[trigger] encode_utf8(pieces@[i]@)).contains(STATEMENT_END),
        decreases rest.spec_bytes().len(),
    {
        let bytes = rest.as_bytes();
        let mut i: usize = 0;
        while i < bytes.len() && bytes[i] != STATEMENT_END
            invariant
                i <= bytes.len(),
                bytes@ == rest.spec_bytes(),
                forall|j: int| 0 <= j < i ==> bytes@[j] != STATEMENT_END,
            decreases bytes.len() - i,
        {
            i = i + 1;
        }
        let ghost before = pieces@;
        if i == bytes.len() {
            let last = String::from_str(rest);
            pieces.push(last);
            proof {
                assert(encode_utf8(last@) =~= bytes@);
                assert(texts_bytes(pieces@) =~= texts_bytes(before).push(encode_utf8(last@)));
                assert(texts_bytes(pieces@).drop_last() =~= texts_bytes(before));
                assert forall|x: int| 0 <= x < pieces.len() implies !(#[trigger] encode_utf8(pieces@[x]@)).contains(STATEMENT_END) by {
                    if x == before.len() {
                        if encode_utf8(last@).contains(STATEMENT_END) {
                            let k = choose|k: int| 0 <= k < encode_utf8(last@).len() && encode_utf8(last@)[k] == STATEMENT_END;
                            assert(bytes@[k] != STATEMENT_END);
                        }
                    } else {
                        assert(pieces@[x] == before[x]);
                    }
                }
            }
            return pieces;
        }
        proof {
            encode_utf8_valid_utf8(rest@);
            assert(valid_utf8(rest.spec_bytes()));
            is_char_boundary_iff_is_leading_byte(rest.spec_bytes(), i as int);
        }
        let (head, tail) = rest.split_at(i);
        proof {
            let tb = tail.spec_bytes();
            assert(tb.len() >= 1 && tb[0] == STATEMENT_END);
            encode_utf8_valid_utf8(tail@);
            assert(valid_utf8(tb));
            if tb.len() == 1 {
                is_char_boundary_start_end_of_seq(tb);
            } else {
                reveal_with_fuel(is_char_boundary, 2);
                assert(length_of_first_scalar(tb) == 1);
                is_char_boundary_start_end_of_seq(pop_first_scalar(tb));
            }
        }
        let (_sep, after) = tail.split_at(1);
        let piece = String::from_str(head);
        pieces.push(piece);
        proof {
            assert(encode_utf8(piece@) =~= head.spec_bytes());
            assert(texts_bytes(pieces@) =~= texts_bytes(before).push(encode_utf8(piece@)));
            assert(texts_bytes(pieces@).drop_last() =~= texts_bytes(before));
            assert(terminated(texts_bytes(pieces@)) =~= terminated(texts_bytes(before)) + head.spec_bytes() + seq![STATEMENT_END]);
            assert(head.spec_bytes() + seq![STATEMENT_END] + after.spec_bytes() =~= rest.spec_bytes());
            assert(terminated(texts_bytes(pieces@)) + after.spec_bytes() =~= script.spec_bytes());
            assert forall|x: int| 0 <= x < pieces.len() implies !(#[trigger] encode_utf8(pieces@[x]@)).contains(STATEMENT_END) by {
                if x == before.len() {
                    if encode_utf8(piece@).contains(STATEMENT_END) {
                        let k = choose|k: int| 0 <= k < encode_utf8(piece@).len() && encode_utf8(piece@)[k] == STATEMENT_END;
                        assert(bytes@[k] != STATEMENT_END);
                    }
                } else {
                    assert(pieces@[x] == before[x]);
                }
            }
        }
        rest = after;
    }
}

impl Migration {
    /// Reads a migration from its name, in any ASCII case.
    pub fn from_name(s: &str) -> (r: Option<Migration>)
        ensures
            r == migration_named(s@),
    {
        let mut lowered: Vec<u32> = Vec::new();
        for c in it: s.chars()
            invariant
                lowered@ == lower_seq(it.seq().take(it.index())),
        {
            proof {
                assert(it.seq().take(it.index() + 1) == it.seq().take(it.index()).push(c));
            }
            lowered.push(lower_char(c));
            proof {
                assert(lowered@ =~= lower_seq(it.seq().take(it.index() + 1)));
            }
        }
        proof {
            assert(lowered@ == lower_seq(s@));
        }
        proof {
            reveal_strlit("up");
            reveal_strlit("down");
            reveal_strlit("none");
            assert(lower_seq("up"@) =~= seq![117u32, 112]);
            assert(lower_seq("down"@) =~= seq![100u32, 111, 119, 110]);
            assert(lower_seq("none"@) =~= seq![110u32, 111, 110, 101]);
        }
        if same_codes(&lowered, &[117, 112]) {
            Some(Migration::Up)
        } else if same_codes(&lowered, &[100, 111, 119, 110]) {
            Some(Migration::Down)
        } else if same_codes(&lowered, &[110, 111, 110, 101]) {
            Some(Migration::Skip)
        } else {
            None
        }
    }

    /// The name of the migration, in lower case.
    pub open spec fn name_spec(self) -> Seq<char> {
        match self {
            Migration::Skip => "none"@,
            Migration::Up => "up"@,
            Migration::Down => "down"@,
        }
    }

    /// The name of the migration, in lower case; reading it back gives the
    /// same migration.
    pub fn as_str(&self) -> (r: &'static str)
        ensures
            r@ == self.name_spec(),
            migration_named(r@) == Some(*self),
    {
        proof {
            reveal_strlit("up");
            reveal_strlit("down");
            reveal_strlit("none");
            assert(lower_seq("up"@) =~= seq![117u32, 112]);
            assert(lower_seq("down"@) =~= seq![100u32, 111, 119, 110]);
            assert(lower_seq("none"@) =~= seq![110u32, 111, 110, 101]);
        }
        match self {
            Migration::Skip => "none",
            Migration::Up => "up",
            Migration::Down => "down",
        }
    }

    /// The schema script that this migration runs; none for `Skip`.
    pub fn script_name(&self) -> (r: Option<&'static str>)
        ensures
            r is None <==> *self == Migration::Skip,
            *self == Migration::Up ==> r == Some("init_migration.sql"),
            *self == Migration::Down ==> r == Some("down_migration.sql"),
    {
        match self {
            Migration::Skip => None,
            Migration::Up => Some("init_migration.sql"),
            Migration::Down => Some("down_migration.sql"),
        }
    }
}

} // verus!
