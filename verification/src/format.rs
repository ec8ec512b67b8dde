//! Verified string formatting: decimal numbers, probabilities in
//! thousandths, and tennis score calls ("15-30", "Deuce", "Ad-In", "GAME").

use vstd::prelude::*;
use vstd::string::StringExecFns;

verus! {

/// The character for one decimal digit.
pub open spec fn digit_char(d: int) -> char {
    if d == 0 {
        '0'
    } else if d == 1 {
        '1'
    } else if d == 2 {
        '2'
    } else if d == 3 {
        '3'
    } else if d == 4 {
        '4'
    } else if d == 5 {
        '5'
    } else if d == 6 {
        '6'
    } else if d == 7 {
        '7'
    } else if d == 8 {
        '8'
    } else {
        '9'
    }
}

/// The decimal representation of a non-negative integer, without sign or
/// leading zeros (a lone zero is written "0").
pub open spec fn dec_rep(n: int) -> Seq<char>
    decreases n,
{
    if n < 10 {
        seq![digit_char(n)]
    } else {
        dec_rep(n / 10) + seq![digit_char(n % 10)]
    }
}

/// Every character of a decimal representation is a digit.
pub proof fn lemma_dec_rep_digits(n: int)
    ensures
        dec_rep(n).len() >= 1,
        forall|i: int|
            0 <= i < dec_rep(n).len() ==> ('0' <= #[trigger] dec_rep(n)[i] <= '9'),
    decreases n,
{
    if n >= 10 {
        lemma_dec_rep_digits(n / 10);
    }
}

/// A probability in thousandths written with three decimal places: 650 is
/// written "0.650", 1000 is written "1.000".
pub open spec fn milli_rep(v: int) -> Seq<char> {
    dec_rep(v / 1000) + "."@ + seq![
        digit_char((v / 100) % 10),
        digit_char((v / 10) % 10),
        digit_char(v % 10),
    ]
}

/// The tennis call for a point count within a game: 0, 15, 30, 40, and the
/// plain number beyond that.
pub open spec fn tennis_call_rep(points: int) -> Seq<char> {
    if points == 0 {
        "0"@
    } else if points == 1 {
        "15"@
    } else if points == 2 {
        "30"@
    } else if points == 3 {
        "40"@
    } else {
        dec_rep(points)
    }
}

/// Two plain numbers joined by a dash, as in "6-4".
pub open spec fn score_pair_rep(a: int, b: int) -> Seq<char> {
    dec_rep(a) + "-"@ + dec_rep(b)
}

/// Two tennis calls joined by a dash, as in "40-30".
pub open spec fn call_pair_rep(a: int, b: int) -> Seq<char> {
    tennis_call_rep(a) + "-"@ + tennis_call_rep(b)
}

/// The formatted point score, server first. In a tiebreak the raw point
/// counts are shown. Otherwise equal counts of three or more read "Deuce",
/// a one-point lead at four or more reads "Ad-In" or "Ad-Out", and a lead
/// of two or more at four or more reads "GAME".
pub open spec fn point_score_rep(sp: int, rp: int, is_tiebreak: bool) -> Seq<char> {
    if is_tiebreak {
        score_pair_rep(sp, rp)
    } else if sp == rp && sp >= 3 {
        "Deuce"@
    } else if (if sp >= rp {
        sp
    } else {
        rp
    }) >= 4 {
        if sp - rp == 1 || rp - sp == 1 {
            if sp > rp {
                "Ad-In"@
            } else {
                "Ad-Out"@
            }
        } else if sp - rp >= 2 || rp - sp >= 2 {
            "GAME"@
        } else {
            call_pair_rep(sp, rp)
        }
    } else {
        call_pair_rep(sp, rp)
    }
}

/// A one-character string for one decimal digit.
pub fn digit_str(d: u32) -> (r: &'static str)
    requires
        d < 10,
    ensures
        r@ =~= seq![digit_char(d as int)],
{
    proof {
        reveal_strlit("0");
        reveal_strlit("1");
        reveal_strlit("2");
        reveal_strlit("3");
        reveal_strlit("4");
        reveal_strlit("5");
        reveal_strlit("6");
        reveal_strlit("7");
        reveal_strlit("8");
        reveal_strlit("9");
    }
    if d == 0 {
        "0"
    } else if d == 1 {
        "1"
    } else if d == 2 {
        "2"
    } else if d == 3 {
        "3"
    } else if d == 4 {
        "4"
    } else if d == 5 {
        "5"
    } else if d == 6 {
        "6"
    } else if d == 7 {
        "7"
    } else if d == 8 {
        "8"
    } else {
        "9"
    }
}

/// A number written in decimal.
pub fn u64_string(n: u64) -> (r: String)
    ensures
        r@ =~= dec_rep(n as int),
    decreases n,
{
    if n < 10 {
        String::from_str(digit_str(n as u32))
    } else {
        let prefix = u64_string(n / 10);
        prefix.concat(digit_str((n % 10) as u32))
    }
}

/// A number written in decimal.
pub fn u32_string(n: u32) -> (r: String)
    ensures
        r@ =~= dec_rep(n as int),
{
    u64_string(n as u64)
}

/// A probability in thousandths written with three decimal places.
pub fn milli_string(v: u32) -> (r: String)
    ensures
        r@ =~= milli_rep(v as int),
{
    let mut s = u32_string(v / 1000);
    s.append(".");
    s.append(digit_str((v / 100) % 10));
    s.append(digit_str((v / 10) % 10));
    s.append(digit_str(v % 10));
    s
}

/// The tennis call for a point count.
pub fn tennis_call_string(points: u32) -> (r: String)
    ensures
        r@ =~= tennis_call_rep(points as int),
{
    if points == 0 {
        String::from_str("0")
    } else if points == 1 {
        String::from_str("15")
    } else if points == 2 {
        String::from_str("30")
    } else if points == 3 {
        String::from_str("40")
    } else {
        u32_string(points)
    }
}

/// Two plain numbers joined by a dash.
pub fn score_pair_string(a: u32, b: u32) -> (r: String)
    ensures
        r@ =~= score_pair_rep(a as int, b as int),
{
    let mut s = u32_string(a);
    s.append("-");
    let tail = u32_string(b);
    s.append(tail.as_str());
    s
}

/// Two tennis calls joined by a dash.
pub fn call_pair_string(a: u32, b: u32) -> (r: String)
    ensures
        r@ =~= call_pair_rep(a as int, b as int),
{
    let mut s = tennis_call_string(a);
    s.append("-");
    let tail = tennis_call_string(b);
    s.append(tail.as_str());
    s
}

/// The formatted point score, server first.
pub fn point_score_string(sp: u32, rp: u32, is_tiebreak: bool) -> (r: String)
    ensures
        r@ =~= point_score_rep(sp as int, rp as int, is_tiebreak),
{
    if is_tiebreak {
        score_pair_string(sp, rp)
    } else if sp == rp && sp >= 3 {
        String::from_str("Deuce")
    } else if (if sp >= rp {
        sp
    } else {
        rp
    }) >= 4 {
        let diff = if sp >= rp {
            sp - rp
        } else {
            rp - sp
        };
        if diff == 1 {
            if sp > rp {
                String::from_str("Ad-In")
            } else {
                String::from_str("Ad-Out")
            }
        } else if diff >= 2 {
            String::from_str("GAME")
        } else {
            call_pair_string(sp, rp)
        }
    } else {
        call_pair_string(sp, rp)
    }
}

/// The point score reads "GAME" exactly when the leader has at least four
/// points and leads by at least two: the score string and the game-over
/// rule agree.
pub proof fn lemma_game_string_iff_game_over(sp: int, rp: int)
    requires
        sp >= 0,
        rp >= 0,
    ensures
        (point_score_rep(sp, rp, false) == "GAME"@) <==> ((sp >= 4 || rp >= 4) && (sp - rp >= 2
            || rp - sp >= 2)),
{
    reveal_strlit("GAME");
    reveal_strlit("Deuce");
    reveal_strlit("Ad-In");
    reveal_strlit("Ad-Out");
    reveal_strlit("-");
    if (sp >= 4 || rp >= 4) && (sp - rp >= 2 || rp - sp >= 2) {
        assert(point_score_rep(sp, rp, false) == "GAME"@);
    } else {
        let r = point_score_rep(sp, rp, false);
        if sp == rp && sp >= 3 {
            assert(r.len() == 5);
            assert(r != "GAME"@);
        } else if (if sp >= rp {
            sp
        } else {
            rp
        }) >= 4 {
            assert(sp - rp == 1 || rp - sp == 1);
            assert(r.len() == 5 || r.len() == 6);
            assert(r != "GAME"@);
        } else {
            lemma_call_pair_not_game(sp, rp);
        }
    }
}

/// A pair of tennis calls never reads "GAME": its first character is a
/// digit.
proof fn lemma_call_pair_not_game(a: int, b: int)
    requires
        a >= 0,
        b >= 0,
    ensures
        call_pair_rep(a, b) != "GAME"@,
{
    reveal_strlit("GAME");
    reveal_strlit("0");
    reveal_strlit("15");
    reveal_strlit("30");
    reveal_strlit("40");
    lemma_dec_rep_digits(a);
    let head = tennis_call_rep(a);
    assert(head.len() >= 1);
    assert('0' <= head[0] <= '9');
    assert(call_pair_rep(a, b)[0] == head[0]);
    assert("GAME"@[0] == 'G');
}

} // verus!
