use vstd::prelude::*;
use vstd::string::StringExecFns;

verus! {

/// Number of columns written for each line item.
pub const ITEM_COLUMNS: u64 = 12;

pub open spec fn digit_char(d: nat) -> char {
    ((d + 48) as u32) as char
}

/// The decimal digits of `n`, most significant first, without leading zeros.
pub open spec fn decimal(n: nat) -> Seq<char>
    decreases n,
{
    if n < 10 {
        seq![digit_char(n)]
    } else {
        decimal(n / 10).push(digit_char(n % 10))
    }
}

/// The placeholders `$start, $start+1, ...`, `count` of them, comma separated.
pub open spec fn placeholders(start: nat, count: nat) -> Seq<char>
    decreases count,
{
    if count == 0 {
        Seq::empty()
    } else if count == 1 {
        seq!['$'] + decimal(start)
    } else {
        placeholders(start, (count - 1) as nat) + seq![',', ' ', '$'] + decimal((start + count - 1) as nat)
    }
}

/// The bracketed placeholders of one row whose first parameter is `start`.
pub open spec fn row_group(start: nat) -> Seq<char> {
    seq!['('] + placeholders(start, ITEM_COLUMNS as nat) + seq![')']
}

/// The placeholder groups of the first `n` rows, comma separated; row `i`
/// (from zero) takes the parameters from `12 * i + 1` on.
pub open spec fn row_groups(n: nat) -> Seq<char>
    decreases n,
{
    if n == 0 {
        Seq::empty()
    } else if n == 1 {
        row_group(1)
    } else {
        row_groups((n - 1) as nat) + seq![','] + row_group((ITEM_COLUMNS * (n - 1) + 1) as nat)
    }
}

pub open spec fn items_head() -> Seq<char> {
    "INSERT INTO items (order_uid, chrt_id, track_number, price, rid, name, sale, size, total_price, nm_id, brand, status) VALUES "@
}

pub open spec fn items_tail() -> Seq<char> {
    " RETURNING chrt_id, track_number, price, rid, name, sale, size, total_price, nm_id, brand, status"@
}

fn digit_str(d: u64) -> (r: &'static str)
    requires
        d < 10,
    ensures
        r@ == seq![digit_char(d as nat)],
{
    proof {
        reveal_strlit("0");
        reveal_strlit("1");
        reveal_strlit("2");
        reveal_strlit("3");
        reveal_strlit("4");
        reveal_strlit("5");
        reveal_strlit("6");
        reveal_strlit("7");
        reveal_strlit("8");
        reveal_strlit("9");
    }
    match d {
        0 => "0",
        1 => "1",
        2 => "2",
        3 => "3",
        4 => "4",
        5 => "5",
        6 => "6",
        7 => "7",
        8 => "8",
        _ => "9",
    }
}

/// Appends the decimal digits of `n`.
pub fn append_decimal(s: &mut String, n: u64)
    ensures
        final(s)@ == old(s)@ + decimal(n as nat),
    decreases n,
{
    if n >= 10 {
        append_decimal(s, n / 10);
    }
    s.append(digit_str(n % 10));
    proof {
        if n >= 10 {
            assert(final(s)@ =~= old(s)@ + decimal(n as nat));
        } else {
            assert(final(s)@ =~= old(s)@ + decimal(n as nat));
        }
    }
}

/// Appends the placeholders of one row whose first parameter is `start`.
fn append_row_group(s: &mut String, start: u64)
    requires
        start + ITEM_COLUMNS <= u64::MAX,
    ensures
        final(s)@ == old(s)@ + row_group(start as nat),
{
    proof {
        reveal_strlit("(");
        reveal_strlit(")");
        reveal_strlit("$");
        reveal_strlit(", $");
    }
    s.append("(");
    s.append("$");
    append_decimal(s, start);
    let mut k: u64 = 1;
    while k < ITEM_COLUMNS
        invariant
            1 <= k <= ITEM_COLUMNS,
            start + ITEM_COLUMNS <= u64::MAX,
            s@ == old(s)@ + seq!['('] + placeholders(start as nat, k as nat),
        decreases ITEM_COLUMNS - k,
    {
        let ghost prev = s@;
        s.append(", $");
        append_decimal(s, start + k);
        proof {
            reveal_strlit(", $");
            assert(", $"@ =~= seq![',', ' ', '$']);
            assert(placeholders(start as nat, (k + 1) as nat) == placeholders(start as nat, k as nat)
                + seq![',', ' ', '$'] + decimal((start + k) as nat));
            assert(s@ =~= prev + seq![',', ' ', '$'] + decimal((start + k) as nat));
            assert(s@ =~= old(s)@ + seq!['('] + placeholders(start as nat, (k + 1) as nat));
        }
        k = k + 1;
    }
    s.append(")");
    proof {
        assert(s@ =~= old(s)@ + row_group(start as nat));
    }
}

/// The statement that inserts `n` line items of one order in a single
/// multi-row insert, its parameters numbered row after row. `None` where
/// there is nothing to insert.
pub fn items_insert_query(n: u64) -> (r: Option<String>)
    requires
        ITEM_COLUMNS * n + ITEM_COLUMNS <= u64::MAX,
    ensures
        n == 0 <==> r is None,
        r matches Some(q) ==> q@ == items_head() + row_groups(n as nat) + items_tail(),
{
    if n == 0 {
        return None;
    }
    let mut query = String::from_str(
        "INSERT INTO items (order_uid, chrt_id, track_number, price, rid, name, sale, size, total_price, nm_id, brand, status) VALUES ",
    );
    proof {
        reveal_strlit(",");
    }
    append_row_group(&mut query, 1);
    let mut i: u64 = 1;
    while i < n
        invariant
            1 <= i <= n,
            ITEM_COLUMNS * n + ITEM_COLUMNS <= u64::MAX,
            query@ == items_head() + row_groups(i as nat),
        decreases n - i,
    {
        let ghost prev = query@;
        query.append(",");
        proof {
            assert(ITEM_COLUMNS * i + 1 + ITEM_COLUMNS <= u64::MAX) by (nonlinear_arith)
                requires
                    i < n,
                    ITEM_COLUMNS * n + ITEM_COLUMNS <= u64::MAX,
                    ITEM_COLUMNS == 12,
            ;
        }
        append_row_group(&mut query, ITEM_COLUMNS * i + 1);
        proof {
            reveal_strlit(",");
            assert(","@ =~= seq![',']);
            assert(row_groups((i + 1) as nat) == row_groups(i as nat) + seq![','] + row_group(
                (ITEM_COLUMNS * i + 1) as nat,
            ));
            assert(query@ =~= prev + seq![','] + row_group((ITEM_COLUMNS * i + 1) as nat));
            assert(query@ =~= items_head() + row_groups((i + 1) as nat));
        }
        i = i + 1;
    }
    query.append(
        " RETURNING chrt_id, track_number, price, rid, name, sale, size, total_price, nm_id, brand, status",
    );
    Some(query)
}

} // verus!
