//! Text building blocks: decimal rendering of integers and joining of labels.

use vstd::prelude::*;

verus! {

/// The character that stands for one decimal digit.
pub open spec fn digit(d: nat) -> char {
    if d == 0 {
        '0'
    } else if d == 1 {
        '1'
    } else if d == 2 {
        '2'
    } else if d == 3 {
        '3'
    } else if d == 4 {
        '4'
    } else if d == 5 {
        '5'
    } else if d == 6 {
        '6'
    } else if d == 7 {
        '7'
    } else if d == 8 {
        '8'
    } else {
        '9'
    }
}

/// The decimal numeral of a natural number, most significant digit first,
/// without leading zeros.
pub open spec fn decimal(n: nat) -> Seq<char>
    decreases n,
{
    if n < 10 {
        seq![digit(n)]
    } else {
        decimal(n / 10).push(digit(n % 10))
    }
}

/// The decimal numeral of an integer: a minus sign in front of negative
/// numbers, nothing in front of the others.
pub open spec fn signed_decimal(n: int) -> Seq<char> {
    if n < 0 {
        seq!['-'] + decimal((-n) as nat)
    } else {
        decimal(n as nat)
    }
}

/// One decimal digit as a one-character string slice.
fn digit_str(d: u8) -> (s: &'static str)
    requires
        d < 10,
    ensures
        s@ == seq![digit(d as nat)],
{
    proof {
        reveal_strlit("0");
        reveal_strlit("1");
        reveal_strlit("2");
        reveal_strlit("3");
        reveal_strlit("4");
        reveal_strlit("5");
        reveal_strlit("6");
        reveal_strlit("7");
        reveal_strlit("8");
        reveal_strlit("9");
    }
    let s = if d == 0 {
        "0"
    } else if d == 1 {
        "1"
    } else if d == 2 {
        "2"
    } else if d == 3 {
        "3"
    } else if d == 4 {
        "4"
    } else if d == 5 {
        "5"
    } else if d == 6 {
        "6"
    } else if d == 7 {
        "7"
    } else if d == 8 {
        "8"
    } else {
        "9"
    };
    assert(s@ =~= seq![digit(d as nat)]);
    s
}

/// Renders a natural number in decimal.
pub fn decimal_string(n: u64) -> (s: String)
    ensures
        s@ == decimal(n as nat),
    decreases n,
{
    if n < 10 {
        let s = String::from_str(digit_str(n as u8));
        s
    } else {
        let mut s = decimal_string(n / 10);
        s.append(digit_str((n % 10) as u8));
        assert(s@ =~= decimal(n as nat));
        s
    }
}

/// Renders a signed integer in decimal.
pub fn signed_decimal_string(n: i64) -> (s: String)
    ensures
        s@ == signed_decimal(n as int),
{
    if n < 0 {
        let magnitude: u64 = if n == i64::MIN {
            9223372036854775808u64
        } else {
            (-n) as u64
        };
        proof {
            reveal_strlit("-");
        }
        let mut s = String::from_str("-");
        let digits = decimal_string(magnitude);
        s.append(digits.as_str());
        assert(s@ =~= signed_decimal(n as int));
        s
    } else {
        decimal_string(n as u64)
    }
}

/// The texts of a list of strings.
pub open spec fn texts(parts: Seq<String>) -> Seq<Seq<char>> {
    parts.map_values(|s: String| s@)
}

/// The parts in order, with the separator between each two neighbours.
pub open spec fn join(parts: Seq<Seq<char>>, sep: Seq<char>) -> Seq<char>
    decreases parts.len(),
{
    if parts.len() == 0 {
        Seq::empty()
    } else if parts.len() == 1 {
        parts[0]
    } else {
        join(parts.drop_last(), sep) + sep + parts.last()
    }
}

/// Where part `i` begins in the joined text.
pub open spec fn part_start(parts: Seq<Seq<char>>, sep: Seq<char>, i: int) -> int
    decreases i,
{
    if i <= 0 {
        0
    } else {
        part_start(parts, sep, i - 1) + parts[i - 1].len() + sep.len()
    }
}

/// Joining keeps every part, whole and in its place: part `i` of the list is
/// the stretch of the joined text that begins at `part_start(parts, sep, i)`.
pub proof fn join_holds_part(parts: Seq<Seq<char>>, sep: Seq<char>, i: int)
    requires
        0 <= i < parts.len(),
    ensures
        0 <= part_start(parts, sep, i),
        part_start(parts, sep, i) + parts[i].len() <= join(parts, sep).len(),
        join(parts, sep).subrange(
            part_start(parts, sep, i),
            part_start(parts, sep, i) + parts[i].len(),
        ) == parts[i],
    decreases parts.len(),
{
    let n = parts.len() as int;
    if n == 1 {
        assert(join(parts, sep).subrange(0, parts[0].len() as int) =~= parts[0]);
    } else {
        let front = parts.drop_last();
        let head = join(front, sep);
        if i < n - 1 {
            join_holds_part(front, sep, i);
            part_start_of_prefix(parts, front, sep, i);
            let a = part_start(front, sep, i);
            assert(join(parts, sep).subrange(a, a + parts[i].len()) =~= head.subrange(
                a,
                a + parts[i].len(),
            ));
        } else {
            join_len(front, sep);
            part_start_of_prefix(parts, front, sep, n - 2);
            let a = part_start(parts, sep, i);
            assert(a == head.len() + sep.len());
            assert(join(parts, sep).subrange(a, a + parts[i].len()) =~= parts[i]);
        }
    }
}

/// The start of a part depends only on the parts before it.
proof fn part_start_of_prefix(
    parts: Seq<Seq<char>>,
    front: Seq<Seq<char>>,
    sep: Seq<char>,
    i: int,
)
    requires
        front.len() <= parts.len(),
        forall|k: int| 0 <= k < front.len() ==> front[k] == parts[k],
        i <= front.len(),
    ensures
        part_start(front, sep, i) == part_start(parts, sep, i),
        0 <= part_start(parts, sep, i),
    decreases i,
{
    if i > 0 {
        part_start_of_prefix(parts, front, sep, i - 1);
    }
}

/// The length of a joined text: the lengths of the parts and of the
/// separators between them.
proof fn join_len(parts: Seq<Seq<char>>, sep: Seq<char>)
    requires
        parts.len() > 0,
    ensures
        join(parts, sep).len() == part_start(parts, sep, parts.len() - 1) + parts.last().len(),
    decreases parts.len(),
{
    let n = parts.len() as int;
    if n > 1 {
        let front = parts.drop_last();
        join_len(front, sep);
        part_start_of_prefix(parts, front, sep, n - 2);
        assert(front.last() == parts[n - 2]);
    }
}

/// In a joined text the parts keep the order of the list: an earlier part
/// and the separator after it end before a later part begins.
pub proof fn join_keeps_order(parts: Seq<Seq<char>>, sep: Seq<char>, i: int, j: int)
    requires
        0 <= i < j < parts.len(),
    ensures
        part_start(parts, sep, i) + parts[i].len() + sep.len() <= part_start(parts, sep, j),
    decreases j,
{
    if i < j - 1 {
        join_keeps_order(parts, sep, i, j - 1);
    }
}

/// Joins the strings of a list, with `sep` between each two neighbours.
pub fn join_strings(parts: &Vec<String>, sep: &str) -> (s: String)
    ensures
        s@ == join(texts(parts@), sep@),
{
    let mut out = String::new();
    let mut i: usize = 0;
    assert(texts(parts@).take(0) =~= Seq::<Seq<char>>::empty());
    while i < parts.len()
        invariant
            i <= parts.len(),
            out@ == join(texts(parts@).take(i as int), sep@),
        decreases parts.len() - i,
    {
        let ghost before = texts(parts@).take(i as int);
        let ghost after = texts(parts@).take(i + 1);
        proof {
            assert(after.drop_last() =~= before);
            assert(after.last() == parts@[i as int]@);
        }
        if i > 0 {
            out.append(sep);
        }
        out.append(parts[i].as_str());
        proof {
            if i == 0 {
                assert(out@ =~= after[0]);
            } else {
                assert(out@ =~= join(before, sep@) + sep@ + after.last());
            }
        }
        i += 1;
    }
    assert(texts(parts@).take(parts.len() as int) =~= texts(parts@));
    out
}

} // verus!
