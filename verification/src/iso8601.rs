//! ISO-8601 formatting of UTC offsets.
//!
//! The formatting options are derived from a pattern field length exactly as
//! the UTS-35 time zone patterns demand, and the formatter itself is a pure
//! function from an offset to the formatted text.

use vstd::prelude::*;

verus! {

/// The length of a time zone pattern field.
#[derive(Debug, Clone, Copy, PartialEq, Eq, Structural)]
pub enum FieldLength {
    /// A single pattern symbol.
    One,
    /// Two repeated pattern symbols.
    Two,
    /// Three repeated pattern symbols.
    Three,
    /// Four repeated pattern symbols.
    Four,
    /// Five repeated pattern symbols.
    Five,
    /// Six repeated pattern symbols.
    Six,
}

/// Whether the minutes field is optional or required.
#[derive(Debug, Clone, Copy, PartialEq, Eq, Structural)]
pub enum Minutes {
    /// Minutes are always displayed.
    Required,
    /// Minutes are displayed only if they are non-zero.
    Optional,
}

/// Whether the seconds field is optional or excluded.
#[derive(Debug, Clone, Copy, PartialEq, Eq, Structural)]
pub enum Seconds {
    /// Seconds are displayed only if they are non-zero.
    Optional,
    /// Seconds are not displayed.
    Never,
}

/// A UTC offset, held as a signed count of seconds within eighteen hours of
/// zero either way.
#[derive(Debug, Clone, Copy, PartialEq, Eq, Structural)]
pub struct UtcOffset {
    seconds: i32,
}

impl UtcOffset {
    /// The bound every offset satisfies: at most eighteen hours from zero.
    #[verifier::type_invariant]
    pub open spec fn wf(&self) -> bool {
        -64800 <= self.spec_seconds() <= 64800
    }

    /// The offset as a signed count of seconds.
    pub closed spec fn spec_seconds(&self) -> i32 {
        self.seconds
    }

    /// The magnitude of the offset in seconds.
    pub open spec fn spec_abs(&self) -> int {
        if self.spec_seconds() >= 0 {
            self.spec_seconds() as int
        } else {
            -(self.spec_seconds() as int)
        }
    }

    /// Accepts a second count within eighteen hours of zero, and nothing else.
    pub fn try_from_seconds(seconds: i32) -> (r: Option<UtcOffset>)
        ensures
            r matches Some(o) ==> o.spec_seconds() == seconds,
            r is Some <==> -64800 <= seconds <= 64800,
    {
        if -64800 <= seconds && seconds <= 64800 {
            Some(UtcOffset { seconds })
        } else {
            None
        }
    }

    /// The offset as a signed count of seconds.
    pub fn to_seconds(&self) -> (r: i32)
        ensures
            r == self.spec_seconds(),
    {
        self.seconds
    }

    /// Whether this is the zero offset.
    pub fn is_zero(&self) -> (r: bool)
        ensures
            r == (self.spec_seconds() == 0),
    {
        self.seconds == 0
    }

    /// The magnitude of the offset in seconds.
    pub fn abs_seconds(&self) -> (r: u32)
        ensures
            r == self.spec_abs(),
    {
        proof {
            use_type_invariant(self);
        }
        if self.seconds >= 0 {
            self.seconds as u32
        } else {
            (-self.seconds) as u32
        }
    }

    /// The whole-hour part, signed, truncated toward zero.
    pub fn hours_part(&self) -> (r: i32)
        ensures
            r == (if self.spec_seconds() >= 0 {
                self.spec_abs() / 3600
            } else {
                -(self.spec_abs() / 3600)
            }),
    {
        proof {
            use_type_invariant(self);
        }
        let m = self.abs_seconds() / 3600;
        if self.seconds >= 0 {
            m as i32
        } else {
            -(m as i32)
        }
    }

    /// The minutes part of the magnitude, below one hour.
    pub fn minutes_part(&self) -> (r: u32)
        ensures
            r == (self.spec_abs() % 3600) / 60,
    {
        proof {
            use_type_invariant(self);
        }
        (self.abs_seconds() % 3600) / 60
    }

    /// The seconds part of the magnitude, below one minute.
    pub fn seconds_part(&self) -> (r: u32)
        ensures
            r == self.spec_abs() % 60,
    {
        proof {
            use_type_invariant(self);
        }
        self.abs_seconds() % 60
    }
}

/// The decimal digit character for `n`.
pub open spec fn spec_digit(n: int) -> char {
    if n == 0 {
        '0'
    } else if n == 1 {
        '1'
    } else if n == 2 {
        '2'
    } else if n == 3 {
        '3'
    } else if n == 4 {
        '4'
    } else if n == 5 {
        '5'
    } else if n == 6 {
        '6'
    } else if n == 7 {
        '7'
    } else if n == 8 {
        '8'
    } else {
        '9'
    }
}

/// `n` rendered as exactly two decimal digits, for `0 <= n < 100`.
pub open spec fn spec_two_digits(n: int) -> Seq<char> {
    seq![spec_digit(n / 10), spec_digit(n % 10)]
}

/// The formatting options of one ISO-8601 offset field.
#[derive(Debug, Clone, Copy, PartialEq, Eq, Structural)]
pub struct Iso8601Format {
    /// Whether parts are separated by colons (`+10:00` rather than `+1000`).
    pub extended: bool,
    /// Whether the zero offset is written as `Z` rather than numerically.
    pub z: bool,
    /// Whether the minutes field is optional or required.
    pub minutes: Minutes,
    /// Whether the seconds field is optional or excluded.
    pub seconds: Seconds,
}

/// The text `format_infallible` produces for the offset of `seconds`
/// seconds: `Z` for the zero offset when the options ask for it; otherwise a
/// sign (following the truncated hour, so offsets within the first negative
/// hour carry `+`), two hour digits, and optional minute and second fields,
/// colon-separated in the extended form.
pub open spec fn spec_iso8601(f: Iso8601Format, seconds: i32) -> Seq<char> {
    if seconds == 0 && f.z {
        seq!['Z']
    } else {
        let m = if seconds >= 0 {
            seconds as int
        } else {
            -(seconds as int)
        };
        let sign = if seconds <= -3600 {
            '-'
        } else {
            '+'
        };
        let sep = if f.extended {
            seq![':']
        } else {
            Seq::<char>::empty()
        };
        let head = seq![sign] + spec_two_digits(m / 3600);
        let with_minutes = if f.minutes is Required || (m % 3600) / 60 != 0 {
            head + sep + spec_two_digits((m % 3600) / 60)
        } else {
            head
        };
        if f.seconds is Optional && m % 60 != 0 {
            with_minutes + sep + spec_two_digits(m % 60)
        } else {
            with_minutes
        }
    }
}

impl Iso8601Format {
    /// The options selected by a pattern field of `length` repeated `Z`
    /// symbols: the zero offset is written as `Z`; minutes are optional only
    /// at the shortest length; seconds appear from the fourth length on; the
    /// third and longest lengths use the extended, colon-separated form.
    pub fn with_z(length: FieldLength) -> (r: Iso8601Format)
        ensures
            r.z == true,
            r.extended == (length is Three || length is Five || length is Six),
            r.minutes == (if length is One {
                Minutes::Optional
            } else {
                Minutes::Required
            }),
            r.seconds == (if length is One || length is Two || length is Three {
                Seconds::Never
            } else {
                Seconds::Optional
            }),
    {
        match length {
            FieldLength::One => Iso8601Format {
                extended: false,
                z: true,
                minutes: Minutes::Optional,
                seconds: Seconds::Never,
            },
            FieldLength::Two => Iso8601Format {
                extended: false,
                z: true,
                minutes: Minutes::Required,
                seconds: Seconds::Never,
            },
            FieldLength::Three => Iso8601Format {
                extended: true,
                z: true,
                minutes: Minutes::Required,
                seconds: Seconds::Never,
            },
            FieldLength::Four => Iso8601Format {
                extended: false,
                z: true,
                minutes: Minutes::Required,
                seconds: Seconds::Optional,
            },
            _ => Iso8601Format {
                extended: true,
                z: true,
                minutes: Minutes::Required,
                seconds: Seconds::Optional,
            },
        }
    }

    /// The options selected by a pattern field that writes the zero offset
    /// numerically; otherwise exactly as [`Iso8601Format::with_z`].
    pub fn without_z(length: FieldLength) -> (r: Iso8601Format)
        ensures
            r.z == false,
            r.extended == (length is Three || length is Five || length is Six),
            r.minutes == (if length is One {
                Minutes::Optional
            } else {
                Minutes::Required
            }),
            r.seconds == (if length is One || length is Two || length is Three {
                Seconds::Never
            } else {
                Seconds::Optional
            }),
    {
        match length {
            FieldLength::One => Iso8601Format {
                extended: false,
                z: false,
                minutes: Minutes::Optional,
                seconds: Seconds::Never,
            },
            FieldLength::Two => Iso8601Format {
                extended: false,
                z: false,
                minutes: Minutes::Required,
                seconds: Seconds::Never,
            },
            FieldLength::Three => Iso8601Format {
                extended: true,
                z: false,
                minutes: Minutes::Required,
                seconds: Seconds::Never,
            },
            FieldLength::Four => Iso8601Format {
                extended: false,
                z: false,
                minutes: Minutes::Required,
                seconds: Seconds::Optional,
            },
            _ => Iso8601Format {
                extended: true,
                z: false,
                minutes: Minutes::Required,
                seconds: Seconds::Optional,
            },
        }
    }

    /// Formats an offset known to be present; never fails.
    pub fn format_infallible(self, offset: &UtcOffset) -> (r: String)
        ensures
            r@ == spec_iso8601(self, offset.spec_seconds()),
    {
        proof {
            use_type_invariant(offset);
        }
        if offset.is_zero() && self.z {
            let out = string_from_literal("Z");
            proof {
                reveal_strlit("Z");
                assert(out@ =~= spec_iso8601(self, offset.spec_seconds()));
            }
            return out;
        }
        let mut out = String::new();
        if offset.to_seconds() <= -3600 {
            let lit = "-";
            proof {
                reveal_strlit("-");
            }
            out.append(lit);
        } else {
            let lit = "+";
            proof {
                reveal_strlit("+");
            }
            out.append(lit);
        }
        let m = offset.abs_seconds();
        let hours = m / 3600;
        let minutes = (m % 3600) / 60;
        let secs = m % 60;
        let hours_text = two_digit_string(hours);
        out.append(hours_text.as_str());
        let ghost head = out@;
        if matches!(self.minutes, Minutes::Required) || minutes != 0 {
            if self.extended {
                let lit = ":";
                proof {
                    reveal_strlit(":");
                }
                out.append(lit);
            }
            let minutes_text = two_digit_string(minutes);
            out.append(minutes_text.as_str());
        }
        if matches!(self.seconds, Seconds::Optional) && secs != 0 {
            if self.extended {
                let lit = ":";
                proof {
                    reveal_strlit(":");
                }
                out.append(lit);
            }
            let secs_text = two_digit_string(secs);
            out.append(secs_text.as_str());
        }
        proof {
            assert(out@ =~= spec_iso8601(self, offset.spec_seconds()));
        }
        out
    }

    /// Formats an offset that may be missing: a missing offset is written as
    /// the placeholder `+?`, a present one exactly as `format_infallible`.
    pub fn format(self, offset: Option<UtcOffset>) -> (r: String)
        ensures
            offset matches Some(o) ==> r@ == spec_iso8601(self, o.spec_seconds()),
            offset is None ==> r@ == seq!['+', '?'],
    {
        match offset {
            Some(o) => self.format_infallible(&o),
            None => {
                let out = string_from_literal("+?");
                proof {
                    reveal_strlit("+?");
                    assert(out@ =~= seq!['+', '?']);
                }
                out
            },
        }
    }
}

/// A `String` copy of a literal, with its view preserved.
fn string_from_literal(s: &str) -> (r: String)
    ensures
        r@ == s@,
{
    let mut out = String::new();
    out.append(s);
    out
}

/// The single-character text of a decimal digit.
fn digit_str(d: u32) -> (r: &'static str)
    requires
        d < 10,
    ensures
        r@ =~= seq![spec_digit(d as int)],
{
    if d == 0 {
        proof {
            reveal_strlit("0");
        }
        "0"
    } else if d == 1 {
        proof {
            reveal_strlit("1");
        }
        "1"
    } else if d == 2 {
        proof {
            reveal_strlit("2");
        }
        "2"
    } else if d == 3 {
        proof {
            reveal_strlit("3");
        }
        "3"
    } else if d == 4 {
        proof {
            reveal_strlit("4");
        }
        "4"
    } else if d == 5 {
        proof {
            reveal_strlit("5");
        }
        "5"
    } else if d == 6 {
        proof {
            reveal_strlit("6");
        }
        "6"
    } else if d == 7 {
        proof {
            reveal_strlit("7");
        }
        "7"
    } else if d == 8 {
        proof {
            reveal_strlit("8");
        }
        "8"
    } else {
        proof {
            reveal_strlit("9");
        }
        "9"
    }
}

/// `n` rendered as exactly two decimal digits.
fn two_digit_string(n: u32) -> (r: String)
    requires
        n < 100,
    ensures
        r@ == spec_two_digits(n as int),
{
    let mut out = String::new();
    out.append(digit_str(n / 10));
    out.append(digit_str(n % 10));
    proof {
        assert(out@ =~= spec_two_digits(n as int));
    }
    out
}

} // verus!
