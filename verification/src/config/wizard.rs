//! Making a configuration from the answers that were given for it.

use crate::config::mode::{ConfigData, ConfigDataView, Mode};
use crate::config::{ManualConfig, ManualConfigView, SavedConfig, SavedConfigView};
use crate::error::ConfigError;
use crate::provider::hetzner::config::{HetznerConfig, HetznerConfigView};
use vstd::prelude::*;
use vstd::string::*;

verus! {

/// The location that is proposed where the provider's list cannot be had.
pub const DEFAULT_LOCATION: &'static str = "nbg1";

/// The server type that is proposed where the provider's list cannot be had.
pub const DEFAULT_SERVER_TYPE: &'static str = "cpx21";

/// The image that is proposed.
pub const DEFAULT_IMAGE: &'static str = "ubuntu-22.04";

/// The key name that is proposed where the provider's list cannot be had.
pub const DEFAULT_SSH_KEY: &'static str = "key-1";

/// The port that is proposed for a manual host.
pub const DEFAULT_PORT: &'static str = "22";

/// The value of a decimal digit.
pub open spec fn digit_value(c: char) -> Option<nat> {
    if c == '0' {
        Some(0)
    } else if c == '1' {
        Some(1)
    } else if c == '2' {
        Some(2)
    } else if c == '3' {
        Some(3)
    } else if c == '4' {
        Some(4)
    } else if c == '5' {
        Some(5)
    } else if c == '6' {
        Some(6)
    } else if c == '7' {
        Some(7)
    } else if c == '8' {
        Some(8)
    } else if c == '9' {
        Some(9)
    } else {
        None
    }
}

/// Every character is a decimal digit.
pub open spec fn all_digits(s: Seq<char>) -> bool {
    forall|i: int| 0 <= i < s.len() ==> (#[trigger] digit_value(s[i])) is Some
}

/// The number that a sequence of digits stands for.
pub open spec fn number(s: Seq<char>) -> nat
    decreases s.len(),
{
    if s.len() == 0 {
        0
    } else {
        number(s.drop_last()) * 10 + match digit_value(s.last()) {
            Some(d) => d,
            None => 0,
        }
    }
}

/// The digits of a numeral: what stands behind its `+`, if it has one.
pub open spec fn unsigned_part(s: Seq<char>) -> Seq<char> {
    if s.len() > 0 && s[0] == '+' {
        s.drop_first()
    } else {
        s
    }
}

/// The port that a text stands for: at least one decimal digit and nothing
/// else, but for a `+` in front, and a value that a port can have.
pub open spec fn port_of(s: Seq<char>) -> Option<u16> {
    let digits = unsigned_part(s);
    if digits.len() > 0 && all_digits(digits) && number(digits) <= 65535 {
        Some(number(digits) as u16)
    } else {
        None
    }
}

/// The number of a sequence of digits is at least the number of what it
/// begins with.
pub proof fn lemma_number_grows(s: Seq<char>, k: int)
    requires
        0 <= k <= s.len(),
    ensures
        number(s.take(k)) <= number(s),
    decreases s.len() - k,
{
    if k == s.len() {
        assert(s.take(k) == s);
    } else {
        lemma_number_grows(s, k + 1);
        assert(s.take(k + 1).drop_last() == s.take(k));
    }
}

fn digit_of(c: char) -> (r: Option<u32>)
    ensures
        match r {
            Some(d) => digit_value(c) == Some(d as nat) && d <= 9,
            None => digit_value(c) is None,
        },
{
    if c == '0' {
        Some(0)
    } else if c == '1' {
        Some(1)
    } else if c == '2' {
        Some(2)
    } else if c == '3' {
        Some(3)
    } else if c == '4' {
        Some(4)
    } else if c == '5' {
        Some(5)
    } else if c == '6' {
        Some(6)
    } else if c == '7' {
        Some(7)
    } else if c == '8' {
        Some(8)
    } else if c == '9' {
        Some(9)
    } else {
        None
    }
}

/// Reads a port number, as `str::parse` reads a `u16`.
pub fn parse_port(text: &str) -> (r: Option<u16>)
    ensures
        r == port_of(text@),
{
    let ghost digits = unsigned_part(text@);
    let ghost shift: int = if text@.len() > 0 && text@[0] == '+' {
        1
    } else {
        0
    };
    let mut acc: u32 = 0;
    let mut seen: bool = false;
    let mut first: bool = true;
    for ch in it: text.chars()
        invariant
            it.seq() == text@,
            digits == unsigned_part(text@),
            shift == (if text@.len() > 0 && text@[0] == '+' {
                1int
            } else {
                0int
            }),
            first == (it.index() == 0),
            it.index() >= shift ==> {
                &&& all_digits(digits.take(it.index() - shift))
                &&& acc == number(digits.take(it.index() - shift))
                &&& seen == (it.index() - shift > 0)
            },
            it.index() < shift ==> acc == 0 && !seen,
            acc <= 65535,
    {
        let ghost i = it.index() as int;
        if first && ch == '+' {
            first = false;
            assert(digits.take(0) == Seq::<char>::empty());
        } else {
            first = false;
            let ghost k = i - shift;
            proof {
                assert(digits[k] == ch);
                assert(digits.take(k + 1).drop_last() == digits.take(k));
                assert(digits.take(k + 1).last() == ch);
            }
            match digit_of(ch) {
                Some(d) => {
                    let next: u32 = acc * 10 + d;
                    if next > 65535 {
                        proof {
                            if all_digits(digits) {
                                lemma_number_grows(digits, k + 1);
                            }
                        }
                        return None;
                    }
                    acc = next;
                    seen = true;
                    assert(all_digits(digits.take(k + 1))) by {
                        assert forall|j: int| 0 <= j < k + 1 implies (#[trigger] digit_value(
                            digits.take(k + 1)[j],
                        )) is Some by {
                            if j < k {
                                assert(digits.take(k)[j] == digits.take(k + 1)[j]);
                            }
                        }
                    }
                },
                None => {
                    assert(!all_digits(digits));
                    return None;
                },
            }
        }
    }
    proof {
        assert(digits.take(digits.len() as int) == digits);
    }
    if seen {
        Some(acc as u16)
    } else {
        None
    }
}

/// What was answered for a manual host.
#[derive(Debug)]
pub struct ManualAnswers {
    pub host: String,
    /// The SSH port, as it was typed.
    pub port: String,
    pub user: String,
    pub ssh_public_key_path: String,
    pub ssh_private_key_path: String,
}

/// What was answered for a Hetzner configuration.
#[derive(Debug)]
pub struct HetznerAnswers {
    pub api_key: String,
    pub location: String,
    pub server_type: String,
    pub image: String,
    pub ssh_key: String,
    pub local_privat_key: String,
}

/// The manual configuration called `name` that the answers make, where the
/// port is one.
pub fn manual_wizzard(name: String, answers: ManualAnswers) -> (r: Result<SavedConfig, ConfigError>)
    ensures
        match port_of(answers.port@) {
            Some(port) => r is Ok && r->Ok_0@ == (SavedConfigView {
                mode: Mode::Manual,
                data: ConfigDataView::Manual(
                    ManualConfigView {
                        name: name@,
                        user: answers.user@,
                        host: answers.host@,
                        port,
                        ssh_public_key_path: answers.ssh_public_key_path@,
                        ssh_private_key_path: answers.ssh_private_key_path@,
                    },
                ),
            }),
            None => r == Err::<SavedConfig, ConfigError>(ConfigError::InvalidPort),
        },
{
    let port = match parse_port(answers.port.as_str()) {
        Some(p) => p,
        None => {
            return Err(ConfigError::InvalidPort);
        },
    };
    Ok(
        SavedConfig {
            mode: Mode::Manual,
            data: ConfigData::Manual(
                ManualConfig {
                    name,
                    user: answers.user,
                    host: answers.host,
                    port,
                    ssh_public_key_path: answers.ssh_public_key_path,
                    ssh_private_key_path: answers.ssh_private_key_path,
                },
            ),
        },
    )
}

/// The Hetzner configuration called `name` that the answers make. Its
/// servers are logged into as `root`.
pub fn hetzner_config_wizzard(name: String, answers: HetznerAnswers) -> (r: SavedConfig)
    ensures
        r@ == (SavedConfigView {
            mode: Mode::Hetzner,
            data: ConfigDataView::Hetzner(
                HetznerConfigView {
                    name: name@,
                    api_key: answers.api_key@,
                    location: answers.location@,
                    server_type: answers.server_type@,
                    image: answers.image@,
                    username: Some("root"@),
                    ssh_key: answers.ssh_key@,
                    local_privat_key: answers.local_privat_key@,
                },
            ),
        }),
{
    SavedConfig {
        mode: Mode::Hetzner,
        data: ConfigData::Hetzner(
            HetznerConfig {
                name,
                api_key: answers.api_key,
                location: answers.location,
                server_type: answers.server_type,
                image: answers.image,
                username: Some(String::from_str("root")),
                ssh_key: answers.ssh_key,
                local_privat_key: answers.local_privat_key,
            },
        ),
    }
}

} // verus!
