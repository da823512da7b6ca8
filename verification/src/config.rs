use vstd::prelude::*;

verus! {

/// Runtime configuration for the service: where the database lives, the
/// default and maximum page sizes for listing, and the port to serve on.
#[derive(Debug, Clone, Default)]
pub struct Config {
    pub database_path: String,
    pub default_limit: u32,
    pub max_limit: u32,
    pub port: u16,
}

/// Which configuration override failed to read as a number.
#[derive(Debug, Clone, PartialEq, Eq, Structural)]
pub enum ConfigError {
    BadDefaultLimit,
    BadMaxLimit,
    BadPort,
}

/// A decimal digit.
pub open spec fn is_digit(c: char) -> bool {
    '0' as int <= c as int && c as int <= '9' as int
}

/// All characters are decimal digits.
pub open spec fn all_digits(s: Seq<char>) -> bool {
    forall|i: int| 0 <= i < s.len() ==> is_digit(#[trigger] s[i])
}

/// The number a digit string denotes, most significant digit first.
pub open spec fn dec_val(s: Seq<char>) -> int
    decreases s.len(),
{
    if s.len() == 0 {
        0
    } else {
        10 * dec_val(s.drop_last()) + (s.last() as int - '0' as int)
    }
}

/// The digits of a numeric literal: everything after one optional leading
/// plus sign.
pub open spec fn digits_part(s: Seq<char>) -> Seq<char> {
    if s.len() > 0 && s[0] == '+' {
        s.subrange(1, s.len() as int)
    } else {
        s
    }
}

/// The text denotes a number that fits in 32 bits: an optional plus sign,
/// then one or more digits, in range.
pub open spec fn decimal_u32(s: Seq<char>) -> bool {
    digits_part(s).len() > 0 && all_digits(digits_part(s)) && dec_val(digits_part(s)) <= u32::MAX
}

/// The text denotes a number that fits in 16 bits.
pub open spec fn decimal_u16(s: Seq<char>) -> bool {
    digits_part(s).len() > 0 && all_digits(digits_part(s)) && dec_val(digits_part(s)) <= u16::MAX
}

/// A digit string denotes a non-negative number.
proof fn lemma_dec_val_nonneg(s: Seq<char>)
    requires
        all_digits(s),
    ensures
        dec_val(s) >= 0,
    decreases s.len(),
{
    if s.len() > 0 {
        assert forall|i: int| 0 <= i < s.drop_last().len() implies is_digit(
            #[trigger] s.drop_last()[i],
        ) by {
            assert(s.drop_last()[i] == s[i]);
        }
        lemma_dec_val_nonneg(s.drop_last());
        assert(is_digit(s.last()));
    }
}

/// A prefix of a digit string denotes no more than the whole.
proof fn lemma_dec_val_prefix_le(s: Seq<char>, m: int)
    requires
        0 <= m <= s.len(),
        all_digits(s),
    ensures
        dec_val(s.subrange(0, m)) <= dec_val(s),
    decreases s.len() - m,
{
    if m == s.len() {
        assert(s.subrange(0, m) =~= s);
    } else {
        let longer = s.subrange(0, m + 1);
        assert(longer.drop_last() =~= s.subrange(0, m));
        assert(longer.last() == s[m]);
        assert forall|i: int| 0 <= i < s.subrange(0, m).len() implies is_digit(
            #[trigger] s.subrange(0, m)[i],
        ) by {
            assert(s.subrange(0, m)[i] == s[i]);
        }
        lemma_dec_val_nonneg(s.subrange(0, m));
        assert(is_digit(s[m]));
        assert(dec_val(s.subrange(0, m)) <= dec_val(longer));
        lemma_dec_val_prefix_le(s, m + 1);
    }
}

/// Reads a 32-bit number from decimal text: an optional leading plus sign,
/// then digits; anything else, or a value out of range, is rejected.
pub fn parse_u32(s: &str) -> (r: Option<u32>)
    ensures
        decimal_u32(s@) ==> r == Some(dec_val(digits_part(s@)) as u32),
        !decimal_u32(s@) ==> r is None,
{
    let n = s.unicode_len();
    let start: usize = if n > 0 && s.get_char(0) == '+' {
        1
    } else {
        0
    };
    let ghost d = digits_part(s@);
    proof {
        assert(d =~= s@.subrange(start as int, n as int));
    }
    if start == n {
        return None;
    }
    let mut acc: u64 = 0;
    let mut j: usize = start;
    while j < n
        invariant
            start <= j <= n,
            start < n,
            n == s@.len(),
            d == digits_part(s@),
            d =~= s@.subrange(start as int, n as int),
            all_digits(d.subrange(0, j - start)),
            acc == dec_val(d.subrange(0, j - start)),
            acc <= u32::MAX as u64,
        decreases n - j,
    {
        let c = s.get_char(j);
        let cv = c as u32;
        proof {
            assert(d[j - start] == s@[j as int]);
        }
        if cv < '0' as u32 || cv > '9' as u32 {
            proof {
                assert(!is_digit(d[j - start]));
            }
            return None;
        }
        let dv = cv - '0' as u32;
        let next: u64 = acc * 10 + (dv as u64);
        proof {
            let ghost longer = d.subrange(0, j - start + 1);
            assert(longer.drop_last() =~= d.subrange(0, j - start));
            assert(longer.last() == d[j - start]);
            assert(next == dec_val(longer));
            assert forall|k: int| 0 <= k < longer.len() implies is_digit(#[trigger] longer[k]) by {
                assert(longer[k] == d[k]);
                if k < j - start {
                    assert(is_digit(d.subrange(0, j - start)[k]));
                }
            }
        }
        if next > 0xFFFF_FFFFu64 {
            proof {
                if all_digits(d) {
                    lemma_dec_val_prefix_le(d, j - start + 1);
                }
            }
            return None;
        }
        acc = next;
        j = j + 1;
        proof {
            assert forall|k: int| 0 <= k < j - start implies is_digit(
                #[trigger] d.subrange(0, j - start)[k],
            ) by {
                assert(d.subrange(0, j - start)[k] == d.subrange(0, j - 1 - start + 1)[k]);
            }
        }
    }
    proof {
        assert(d.subrange(0, n - start) =~= d);
    }
    Some(acc as u32)
}

/// Reads a 16-bit number from decimal text, the same grammar as
/// `parse_u32` with the tighter range.
pub fn parse_u16(s: &str) -> (r: Option<u16>)
    ensures
        decimal_u16(s@) ==> r == Some(dec_val(digits_part(s@)) as u16),
        !decimal_u16(s@) ==> r is None,
{
    match parse_u32(s) {
        Some(v) => {
            proof {
                if decimal_u32(s@) {
                    lemma_dec_val_nonneg(digits_part(s@));
                }
            }
            if v <= 65535 {
                Some(v as u16)
            } else {
                None
            }
        },
        None => None,
    }
}

/// A numeric override, when present, does not read as a 32-bit number.
pub open spec fn u32_override_bad(v: Option<String>) -> bool {
    match v {
        Some(t) => !decimal_u32(t@),
        None => false,
    }
}

/// A numeric override, when present, does not read as a 16-bit number.
pub open spec fn u16_override_bad(v: Option<String>) -> bool {
    match v {
        Some(t) => !decimal_u16(t@),
        None => false,
    }
}

impl Config {
    /// The built-in defaults, used when no overrides are supplied.
    pub fn new() -> (c: Config)
        ensures
            c.database_path@ == "./data/settings.db"@,
            c.default_limit == 10u32,
            c.max_limit == 100u32,
            c.port == 3000u16,
    {
        Config {
            database_path: "./data/settings.db".to_owned(),
            default_limit: 10,
            max_limit: 100,
            port: 3000,
        }
    }

    /// Builds the configuration from optional textual overrides, as they
    /// arrive from the process environment: a missing value falls back to
    /// its default; a present one must be a decimal number of the right
    /// width. The first bad number, in declaration order, names the error.
    pub fn from_parts(
        database_path: Option<String>,
        default_limit: Option<String>,
        max_limit: Option<String>,
        port: Option<String>,
    ) -> (r: Result<Config, ConfigError>)
        ensures
            r is Err <==> u32_override_bad(default_limit) || u32_override_bad(max_limit)
                || u16_override_bad(port),
            r matches Err(e) ==> e == (if u32_override_bad(default_limit) {
                ConfigError::BadDefaultLimit
            } else if u32_override_bad(max_limit) {
                ConfigError::BadMaxLimit
            } else {
                ConfigError::BadPort
            }),
            r matches Ok(c) ==> {
                &&& c.database_path@ == (match database_path {
                    Some(p) => p@,
                    None => "./data/settings.db"@,
                })
                &&& c.default_limit == (match default_limit {
                    Some(t) => dec_val(digits_part(t@)) as u32,
                    None => 10u32,
                })
                &&& c.max_limit == (match max_limit {
                    Some(t) => dec_val(digits_part(t@)) as u32,
                    None => 100u32,
                })
                &&& c.port == (match port {
                    Some(t) => dec_val(digits_part(t@)) as u16,
                    None => 3000u16,
                })
            },
    {
        let dl: u32 = match &default_limit {
            Some(t) => match parse_u32(t.as_str()) {
                Some(v) => v,
                None => {
                    return Err(ConfigError::BadDefaultLimit);
                },
            },
            None => 10,
        };
        let ml: u32 = match &max_limit {
            Some(t) => match parse_u32(t.as_str()) {
                Some(v) => v,
                None => {
                    return Err(ConfigError::BadMaxLimit);
                },
            },
            None => 100,
        };
        let pt: u16 = match &port {
            Some(t) => match parse_u16(t.as_str()) {
                Some(v) => v,
                None => {
                    return Err(ConfigError::BadPort);
                },
            },
            None => 3000,
        };
        let db: String = match database_path {
            Some(p) => p,
            None => "./data/settings.db".to_owned(),
        };
        Ok(Config { database_path: db, default_limit: dl, max_limit: ml, port: pt })
    }
}

} // verus!
