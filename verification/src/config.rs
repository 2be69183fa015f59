//! Service configuration: defaults, and the values the environment supplies.
use vstd::prelude::*;
use crate::clock::is_digit;
use crate::errors::AppError;
use crate::text::owned;

verus! {

broadcast use vstd::string::group_string_axioms;

/// The port served when none is configured.
pub const DEFAULT_PORT: u16 = 3000;

/// Where the service runs when no environment is named.
pub open spec fn default_environment() -> Seq<char> {
    "local"@
}

/// The log filter used when none is configured.
pub open spec fn default_log_level() -> Seq<char> {
    "info"@
}

/// The directory of contract schemas used when none is configured.
pub open spec fn default_contracts_schema_dir() -> Seq<char> {
    "/Users/andrelove/IdeaProjects/phantom-strike-contracts/schemas/v1"@
}

/// The decision store used when none is configured.
pub open spec fn default_decision_store_path() -> Seq<char> {
    "data/signal-decisions.json"@
}

/// How the service is configured.
pub struct AppConfig {
    pub service_name: &'static str,
    pub contract_actor_service: &'static str,
    pub environment: String,
    pub log_level: String,
    pub port: u16,
    pub contracts_schema_dir: String,
    pub decision_store_path: String,
    pub contracts_commit: &'static str,
}

/// The value of a string of decimal digits.
pub open spec fn decimal_value(digits: Seq<char>) -> int
    decreases digits.len(),
{
    if digits.len() == 0 {
        0
    } else {
        decimal_value(digits.drop_last()) * 10 + (digits.last() as int - '0' as int)
    }
}

/// Every character of `s` is a decimal digit.
pub open spec fn all_digits(s: Seq<char>) -> bool {
    forall|i: int| 0 <= i < s.len() ==> #[trigger] is_digit(s[i])
}

/// The digits of an unsigned number: the text without one leading `+`.
pub open spec fn unsigned_digits(s: Seq<char>) -> Seq<char> {
    if s.len() > 0 && s[0] == '+' {
        s.drop_first()
    } else {
        s
    }
}

/// The `u16` that `str::parse::<u16>` reads from `s`: an optional `+`, then
/// one or more decimal digits whose value fits in 16 bits.
pub open spec fn parsed_u16(s: Seq<char>) -> Option<u16> {
    let digits = unsigned_digits(s);
    if digits.len() > 0 && all_digits(digits) && decimal_value(digits) <= u16::MAX {
        Some(decimal_value(digits) as u16)
    } else {
        None
    }
}

/// A string of digits has a value of at least zero.
pub proof fn lemma_decimal_nonneg(digits: Seq<char>)
    requires
        all_digits(digits),
    ensures
        decimal_value(digits) >= 0,
    decreases digits.len(),
{
    if digits.len() > 0 {
        let init = digits.drop_last();
        assert(all_digits(init)) by {
            assert forall|i: int| 0 <= i < init.len() implies #[trigger] is_digit(init[i]) by {
                assert(is_digit(digits[i]));
            }
        }
        lemma_decimal_nonneg(init);
        assert(is_digit(digits[digits.len() - 1]));
    }
}

/// A prefix of a string of digits has no greater value than the whole.
pub proof fn lemma_decimal_prefix(digits: Seq<char>, k: int)
    requires
        all_digits(digits),
        0 <= k <= digits.len(),
    ensures
        decimal_value(digits.take(k)) <= decimal_value(digits),
    decreases digits.len(),
{
    if k < digits.len() {
        let init = digits.drop_last();
        assert(init.take(k) =~= digits.take(k));
        assert(all_digits(init)) by {
            assert forall|i: int| 0 <= i < init.len() implies #[trigger] is_digit(init[i]) by {
                assert(is_digit(digits[i]));
            }
        }
        lemma_decimal_prefix(init, k);
        lemma_decimal_nonneg(init);
        assert(is_digit(digits[digits.len() - 1]));
    } else {
        assert(digits.take(k) =~= digits);
    }
}

/// Reads a port number as `str::parse::<u16>` does.
pub fn parse_u16(text: &str) -> (r: Option<u16>)
    ensures
        r == parsed_u16(text@),
{
    let chars = crate::text::chars_of(text);
    let n = chars.len();
    let start: usize = if n > 0 && chars[0] == '+' {
        1
    } else {
        0
    };
    let ghost digits = unsigned_digits(text@);
    proof {
        assert(digits =~= chars@.subrange(start as int, n as int));
    }
    if start == n {
        return None;
    }
    let mut value: u32 = 0;
    let mut i: usize = start;
    proof {
        assert(chars@.subrange(start as int, i as int) =~= Seq::<char>::empty());
    }
    while i < n
        invariant
            n == chars.len(),
            chars@ == text@,
            start <= i <= n,
            digits == unsigned_digits(text@),
            digits.len() > 0,
            digits == chars@.subrange(start as int, n as int),
            forall|j: int| start <= j < i ==> #[trigger] is_digit(chars@[j]),
            value == decimal_value(chars@.subrange(start as int, i as int)),
            value <= u16::MAX,
        decreases n - i,
    {
        let c = chars[i];
        if !('0' <= c && c <= '9') {
            proof {
                assert(!is_digit(digits[i - start]));
            }
            return None;
        }
        let ghost prefix = chars@.subrange(start as int, (i + 1) as int);
        proof {
            assert(prefix.drop_last() =~= chars@.subrange(start as int, i as int));
        }
        value = value * 10 + ((c as u32) - ('0' as u32));
        i = i + 1;
        if value > 65535 {
            proof {
                if all_digits(digits) {
                    assert(digits.take(i - start) =~= prefix);
                    lemma_decimal_prefix(digits, i - start);
                }
            }
            return None;
        }
    }
    proof {
        assert(chars@.subrange(start as int, n as int) =~= digits);
        assert(all_digits(digits)) by {
            assert forall|j: int| 0 <= j < digits.len() implies #[trigger] is_digit(digits[j]) by {
                assert(is_digit(chars@[start + j]));
            }
        }
    }
    Some(value as u16)
}

impl AppConfig {
    /// The configuration for the values the environment supplies (`None` where
    /// a variable is unset): `PORT`, `CONTRACTS_SCHEMA_DIR`,
    /// `DECISION_STORE_PATH`, `ENVIRONMENT` and `LOG_LEVEL`. Unset values take
    /// their defaults; a port that is not a `u16` is refused.
    pub fn from_values(
        port: Option<String>,
        contracts_schema_dir: Option<String>,
        decision_store_path: Option<String>,
        environment: Option<String>,
        log_level: Option<String>,
    ) -> (res: Result<AppConfig, AppError>)
        ensures
            match res {
                Ok(config) => {
                    &&& config.service_name@ == "phantom-strike-core"@
                    &&& config.contract_actor_service@ == "core"@
                    &&& config.contracts_commit@ == "528603a"@
                    &&& config.port == match port {
                        Some(p) => parsed_u16(p@).unwrap(),
                        None => DEFAULT_PORT,
                    }
                    &&& config.contracts_schema_dir@ == match contracts_schema_dir {
                        Some(d) => d@,
                        None => default_contracts_schema_dir(),
                    }
                    &&& config.decision_store_path@ == match decision_store_path {
                        Some(d) => d@,
                        None => default_decision_store_path(),
                    }
                    &&& config.environment@ == match environment {
                        Some(e) => e@,
                        None => default_environment(),
                    }
                    &&& config.log_level@ == match log_level {
                        Some(l) => l@,
                        None => default_log_level(),
                    }
                },
                Err(e) => e == AppError::Configuration {
                    message: e->Configuration_message,
                } && e->Configuration_message@ == "PORT must be a valid u16"@,
            },
            res is Err <==> (port matches Some(p) && parsed_u16(p@) is None),
    {
        let port = match port {
            Some(text) => match parse_u16(text.as_str()) {
                Some(p) => p,
                None => {
                    return Err(AppError::configuration(owned("PORT must be a valid u16")));
                },
            },
            None => DEFAULT_PORT,
        };
        let contracts_schema_dir = match contracts_schema_dir {
            Some(d) => d,
            None => owned("/Users/andrelove/IdeaProjects/phantom-strike-contracts/schemas/v1"),
        };
        let decision_store_path = match decision_store_path {
            Some(d) => d,
            None => owned("data/signal-decisions.json"),
        };
        let environment = match environment {
            Some(e) => e,
            None => owned("local"),
        };
        let log_level = match log_level {
            Some(l) => l,
            None => owned("info"),
        };
        Ok(AppConfig {
            service_name: "phantom-strike-core",
            contract_actor_service: "core",
            environment,
            log_level,
            port,
            contracts_schema_dir,
            decision_store_path,
            contracts_commit: "528603a",
        })
    }
}

/// Every single decimal digit reads as its own value.
pub proof fn law_parse_single_digit(c: char)
    requires
        is_digit(c),
    ensures
        parsed_u16(seq![c]) == Some((c as int - '0' as int) as u16),
{
    let s = seq![c];
    assert(unsigned_digits(s) == s);
    assert(s.drop_last() =~= Seq::<char>::empty());
    assert(decimal_value(Seq::<char>::empty()) == 0);
    assert(s.last() == c);
    assert(decimal_value(s) == decimal_value(s.drop_last()) * 10 + (c as int - '0' as int));
    assert(all_digits(s));
}

/// Appending a digit to a port that reads as `value` reads as ten times
/// `value` plus that digit, while that fits in 16 bits.
pub proof fn law_parse_append_digit(s: Seq<char>, c: char)
    requires
        parsed_u16(s) is Some,
        is_digit(c),
        parsed_u16(s)->Some_0 * 10 + (c as int - '0' as int) <= u16::MAX,
    ensures
        parsed_u16(s.push(c)) == Some(
            (parsed_u16(s)->Some_0 * 10 + (c as int - '0' as int)) as u16,
        ),
{
    let d = unsigned_digits(s);
    let t = s.push(c);
    lemma_decimal_nonneg(d);
    if s[0] == '+' {
        assert(t.drop_first() =~= d.push(c));
    } else {
        assert(t =~= d.push(c));
    }
    assert(unsigned_digits(t) =~= d.push(c));
    assert(d.push(c).drop_last() =~= d);
    assert(all_digits(d.push(c))) by {
        assert forall|i: int| 0 <= i < d.push(c).len() implies #[trigger] is_digit(d.push(c)[i]) by {
            if i < d.len() {
                assert(is_digit(d[i]));
            }
        }
    }
}

/// A leading `+` does not change what a port reads as.
pub proof fn law_parse_plus_sign(s: Seq<char>)
    requires
        s.len() > 0,
        all_digits(s),
    ensures
        parsed_u16(seq!['+'] + s) == parsed_u16(s),
{
    assert(is_digit(s[0]));
    assert((seq!['+'] + s).drop_first() =~= s);
}

} // verus!
