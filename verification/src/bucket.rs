//! Destination buckets: a `<year>/<month>` directory name derived from a
//! calendar date, with the year printed as four decimal digits and the month
//! as two, both zero-padded.

use vstd::prelude::*;
use vstd::string::StringExecFns;

verus! {

/// The character for one decimal digit.
pub open spec fn digit_char(d: int) -> char {
    if d == 0 {
        '0'
    } else if d == 1 {
        '1'
    } else if d == 2 {
        '2'
    } else if d == 3 {
        '3'
    } else if d == 4 {
        '4'
    } else if d == 5 {
        '5'
    } else if d == 6 {
        '6'
    } else if d == 7 {
        '7'
    } else if d == 8 {
        '8'
    } else {
        '9'
    }
}

/// `n` printed as exactly four decimal digits, zero-padded.
pub open spec fn four_digits(n: int) -> Seq<char> {
    seq![
        digit_char(n / 1000 % 10),
        digit_char(n / 100 % 10),
        digit_char(n / 10 % 10),
        digit_char(n % 10),
    ]
}

/// `n` printed as exactly two decimal digits, zero-padded.
pub open spec fn two_digits(n: int) -> Seq<char> {
    seq![digit_char(n / 10 % 10), digit_char(n % 10)]
}

/// `a` and `b` joined by a single path separator.
pub open spec fn path_join(a: Seq<char>, b: Seq<char>) -> Seq<char> {
    a + seq!['/'] + b
}

/// A destination bucket: a calendar year that fits in four decimal digits
/// and a month.
#[derive(Clone, Copy, Debug, PartialEq, Eq, Structural)]
pub struct Bucket {
    pub year: u16,
    pub month: u8,
}

impl Bucket {
    /// The year fits the four-digit directory name and the month is a
    /// calendar month.
    pub open spec fn wf(self) -> bool {
        self.year <= 9999 && 1 <= self.month <= 12
    }

    /// Classify a calendar date: a bucket exists exactly for years 0 through
    /// 9999 (the years a four-digit directory name can carry).
    pub fn for_date(year: i32, month: u8) -> (r: Option<Bucket>)
        requires
            1 <= month <= 12,
        ensures
            r is Some <==> 0 <= year <= 9999,
            r matches Some(b) ==> b.year == year && b.month == month && b.wf(),
    {
        if 0 <= year && year <= 9999 {
            Some(Bucket { year: year as u16, month })
        } else {
            None
        }
    }

    /// The bucket's year as a four-digit directory name.
    pub fn year_string(&self) -> (r: String)
        requires
            self.wf(),
        ensures
            r@ == four_digits(self.year as int),
    {
        let y = self.year;
        let mut s = String::new();
        s.append(digit_str((y / 1000) as u8));
        s.append(digit_str((y / 100 % 10) as u8));
        s.append(digit_str((y / 10 % 10) as u8));
        s.append(digit_str((y % 10) as u8));
        s
    }

    /// The bucket's month as a two-digit directory name.
    pub fn month_string(&self) -> (r: String)
        requires
            self.wf(),
        ensures
            r@ == two_digits(self.month as int),
    {
        let m = self.month;
        let mut s = String::new();
        s.append(digit_str(m / 10));
        s.append(digit_str(m % 10));
        s
    }

    /// The bucket directory under a working root: `<root>/<YYYY>/<MM>`.
    pub fn dir_under(&self, working_root: &str) -> (r: String)
        requires
            self.wf(),
        ensures
            r@ == path_join(
                path_join(working_root@, four_digits(self.year as int)),
                two_digits(self.month as int),
            ),
    {
        let mut s = working_root.to_owned();
        proof {
            reveal_strlit("/");
        }
        s.append("/");
        s.append(self.year_string().as_str());
        s.append("/");
        s.append(self.month_string().as_str());
        proof {
            assert(s@ =~= path_join(
                path_join(working_root@, four_digits(self.year as int)),
                two_digits(self.month as int),
            ));
        }
        s
    }
}

/// `dir` and `name` joined by a single path separator.
pub fn joined(dir: &str, name: &str) -> (r: String)
    ensures
        r@ == path_join(dir@, name@),
{
    let mut s = dir.to_owned();
    proof {
        reveal_strlit("/");
    }
    s.append("/");
    s.append(name);
    proof {
        assert(s@ =~= path_join(dir@, name@));
    }
    s
}

fn digit_str(d: u8) -> (r: &'static str)
    requires
        d < 10,
    ensures
        r@ == seq![digit_char(d as int)],
{
    proof {
        reveal_strlit("0");
        reveal_strlit("1");
        reveal_strlit("2");
        reveal_strlit("3");
        reveal_strlit("4");
        reveal_strlit("5");
        reveal_strlit("6");
        reveal_strlit("7");
        reveal_strlit("8");
        reveal_strlit("9");
    }
    match d {
        0 => "0",
        1 => "1",
        2 => "2",
        3 => "3",
        4 => "4",
        5 => "5",
        6 => "6",
        7 => "7",
        8 => "8",
        _ => "9",
    }
}

} // verus!
