//! Text of folder names and destination paths.
use vstd::prelude::*;

verus! {

/// The decimal digit `d` (below ten) as a character.
pub open spec fn digit(d: nat) -> char {
    seq!['0', '1', '2', '3', '4', '5', '6', '7', '8', '9'][d as int]
}

/// `n` written in decimal, without leading zeros.
pub open spec fn decimal(n: nat) -> Seq<char>
    decreases n,
{
    if n < 10 {
        seq![digit(n)]
    } else {
        decimal(n / 10).push(digit(n % 10))
    }
}

/// `n` in decimal, padded with leading zeros to at least `width` characters.
pub open spec fn padded(n: nat, width: nat) -> Seq<char> {
    let d = decimal(n);
    if d.len() < width {
        Seq::new((width - d.len()) as nat, |_i: int| '0') + d
    } else {
        d
    }
}

/// A calendar year as a folder name: four zero-padded digits for the years
/// 0 to 9999; outside that range a sign, then at least four digits.
pub open spec fn year_text(y: int) -> Seq<char> {
    if 0 <= y <= 9999 {
        padded(y as nat, 4)
    } else if y < 0 {
        seq!['-'] + padded((-y) as nat, 4)
    } else {
        seq!['+'] + padded(y as nat, 4)
    }
}

/// `{folder}/{name}`.
pub open spec fn joined(folder: Seq<char>, name: Seq<char>) -> Seq<char> {
    folder + seq!['/'] + name
}

fn digit_str(d: u32) -> (r: &'static str)
    requires
        d < 10,
    ensures
        r@ == seq![digit(d as nat)],
{
    proof {
        reveal_strlit("0");
        reveal_strlit("1");
        reveal_strlit("2");
        reveal_strlit("3");
        reveal_strlit("4");
        reveal_strlit("5");
        reveal_strlit("6");
        reveal_strlit("7");
        reveal_strlit("8");
        reveal_strlit("9");
    }
    match d {
        0 => "0",
        1 => "1",
        2 => "2",
        3 => "3",
        4 => "4",
        5 => "5",
        6 => "6",
        7 => "7",
        8 => "8",
        _ => "9",
    }
}

/// `n` written in decimal.
pub fn decimal_string(n: u32) -> (r: String)
    ensures
        r@ == decimal(n as nat),
    decreases n,
{
    if n < 10 {
        String::from_str(digit_str(n))
    } else {
        let mut s = decimal_string(n / 10);
        s.append(digit_str(n % 10));
        s
    }
}

/// `n` in decimal, zero-padded to at least four characters.
pub fn padded4_string(n: u32) -> (r: String)
    ensures
        r@ == padded(n as nat, 4),
{
    let digits = decimal_string(n);
    let len = digits.as_str().unicode_len();
    let mut out = String::new();
    if len < 4 {
        let fill: usize = 4 - len;
        let mut k: usize = 0;
        while k < fill
            invariant
                k <= fill,
                fill == 4 - len,
                out@ == Seq::new(k as nat, |_i: int| '0'),
            decreases fill - k,
        {
            proof {
                reveal_strlit("0");
            }
            out.append("0");
            k = k + 1;
            assert(out@ =~= Seq::new(k as nat, |_i: int| '0'));
        }
        out.append(digits.as_str());
        assert(out@ =~= padded(n as nat, 4));
    } else {
        out = digits;
    }
    out
}

/// The folder name of the year `y`, as chrono writes it for `%Y`.
pub fn year_folder_name(y: i32) -> (r: String)
    ensures
        r@ == year_text(y as int),
{
    if 0 <= y && y <= 9999 {
        padded4_string(y as u32)
    } else if y < 0 {
        let magnitude: u32 = (-(y as i64)) as u32;
        let mut s = String::from_str("-");
        proof {
            reveal_strlit("-");
        }
        s.append(padded4_string(magnitude).as_str());
        s
    } else {
        let mut s = String::from_str("+");
        proof {
            reveal_strlit("+");
        }
        s.append(padded4_string(y as u32).as_str());
        s
    }
}

/// `{folder}/{name}`.
pub fn join_path(folder: &str, name: &str) -> (r: String)
    ensures
        r@ == joined(folder@, name@),
{
    let mut s = String::from_str(folder);
    proof {
        reveal_strlit("/");
    }
    s.append("/");
    s.append(name);
    s
}

} // verus!
