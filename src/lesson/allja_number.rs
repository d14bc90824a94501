//! All-JA contest exchanges: a district number and a power letter.
use vstd::prelude::*;

use crate::lesson::number::report_prefix;
use crate::random::{random_below, random_byte};
use crate::text::{decimal, decimal_spec, push_char};

verus! {

/// The district numbers: 101 to 114 for the Hokkaido areas, then 02 to 48
/// for the prefectures, written with two digits.
pub open spec fn allja_numbers_spec() -> Seq<Seq<char>> {
    Seq::new(14, |i: int| decimal_spec((101 + i) as nat)) + Seq::new(
        47,
        |i: int|
            if 2 + i < 10 {
                seq!['0'] + decimal_spec((2 + i) as nat)
            } else {
                decimal_spec((2 + i) as nat)
            },
    )
}

/// The power letter of a draw: H for 0 to 99, M for 100 to 199, P above.
pub open spec fn allja_power(draw: u8) -> char {
    if draw <= 99 {
        'H'
    } else if draw <= 199 {
        'M'
    } else {
        'P'
    }
}

/// A source of All-JA exchanges; it never runs dry.
pub struct AllJANumberGen {
    allja_nr: Vec<String>,
}

impl AllJANumberGen {
    /// The district numbers that can be drawn.
    pub closed spec fn numbers(&self) -> Seq<Seq<char>> {
        self.allja_nr@.map_values(|s: String| s@)
    }

    /// The source over all district numbers.
    pub fn new() -> (r: Self)
        ensures
            r.numbers() == allja_numbers_spec(),
    {
        let mut allja_nr: Vec<String> = Vec::new();
        let mut x: u64 = 101;
        while x <= 114
            invariant
                101 <= x <= 115,
                allja_nr@.map_values(|s: String| s@) == Seq::new(
                    (x - 101) as nat,
                    |i: int| decimal_spec((101 + i) as nat),
                ),
            decreases 115 - x,
        {
            let ghost prev = allja_nr@.map_values(|s: String| s@);
            let d = decimal(x);
            allja_nr.push(d);
            proof {
                assert(allja_nr@.map_values(|s: String| s@) =~= prev.push(d@));
            }
            x = x + 1;
            proof {
                assert(allja_nr@.map_values(|s: String| s@) =~= Seq::new(
                    (x - 101) as nat,
                    |i: int| decimal_spec((101 + i) as nat),
                ));
            }
        }
        let ghost head = allja_nr@.map_values(|s: String| s@);
        let mut y: u64 = 2;
        while y <= 48
            invariant
                2 <= y <= 49,
                head == Seq::new(14, |i: int| decimal_spec((101 + i) as nat)),
                allja_nr@.map_values(|s: String| s@) == head + Seq::new(
                    (y - 2) as nat,
                    |i: int|
                        if 2 + i < 10 {
                            seq!['0'] + decimal_spec((2 + i) as nat)
                        } else {
                            decimal_spec((2 + i) as nat)
                        },
                ),
            decreases 49 - y,
        {
            let written = if y < 10 {
                let mut s = String::new();
                push_char(&mut s, '0');
                let d = decimal(y);
                s.append(d.as_str());
                s
            } else {
                decimal(y)
            };
            let ghost prev = allja_nr@.map_values(|s: String| s@);
            let ghost w = written@;
            allja_nr.push(written);
            proof {
                assert(allja_nr@.map_values(|s: String| s@) =~= prev.push(w));
            }
            y = y + 1;
            proof {
                assert(allja_nr@.map_values(|s: String| s@) =~= head + Seq::new(
                    (y - 2) as nat,
                    |i: int|
                        if 2 + i < 10 {
                            seq!['0'] + decimal_spec((2 + i) as nat)
                        } else {
                            decimal_spec((2 + i) as nat)
                        },
                ));
            }
        }
        proof {
            assert(allja_nr@.map_values(|s: String| s@) =~= allja_numbers_spec());
        }
        AllJANumberGen { allja_nr }
    }

    /// The district number at `index` followed by the power letter of
    /// `power`.
    pub fn number_at(&self, index: usize, power: u8) -> (r: String)
        requires
            index < self.numbers().len(),
        ensures
            r@ == self.numbers()[index as int].push(allja_power(power)),
    {
        let mut s = self.allja_nr[index].clone();
        let c = if power <= 99 {
            'H'
        } else if power <= 199 {
            'M'
        } else {
            'P'
        };
        push_char(&mut s, c);
        s
    }

    /// Draws a district number with a power letter, without the report.
    pub fn next_number(&self) -> (r: Option<String>)
        ensures
            r is None <==> self.numbers().len() == 0,
            r matches Some(s) ==> exists|i: int, p: u8|
                0 <= i < self.numbers().len() && s@ == self.numbers()[i].push(allja_power(p)),
    {
        if self.allja_nr.len() == 0 {
            return None;
        }
        let idx = random_below(self.allja_nr.len());
        let power = random_byte();
        Some(self.number_at(idx, power))
    }

    /// Draws a whole exchange: the report "5NN " and a district number with
    /// a power letter.
    pub fn next(&self) -> (r: Option<String>)
        ensures
            r is None <==> self.numbers().len() == 0,
            r matches Some(s) ==> exists|i: int, p: u8|
                0 <= i < self.numbers().len() && s@ == report_prefix() + self.numbers()[i].push(
                    allja_power(p),
                ),
    {
        match self.next_number() {
            None => None,
            Some(n) => {
                let mut s = String::new();
                push_char(&mut s, '5');
                push_char(&mut s, 'N');
                push_char(&mut s, 'N');
                push_char(&mut s, ' ');
                s.append(n.as_str());
                proof {
                    assert(s@ =~= report_prefix() + n@);
                }
                Some(s)
            },
        }
    }
}

} // verus!
