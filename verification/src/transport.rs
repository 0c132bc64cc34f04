//! The ways to Copilot: its API, or its official CLI. Which of them is used,
//! and whether it can be, is read from the environment.

use crate::error::CopilotError;
use crate::message::{str_option, text_option};
use crate::text::{decimal_text, law_decimal_numbers, str_eq};
use std::path::PathBuf;
use vstd::prelude::*;
use vstd::string::*;

verus! {

/// A way to Copilot.
#[derive(Clone, Copy, Debug, PartialEq, Eq, Structural)]
pub enum CopilotTransport {
    /// Copilot's API.
    Native,
    /// Copilot's official CLI, as a child process.
    OfficialCli,
}

/// The transport that a name stands for; where no name is given, the native
/// one.
pub open spec fn transport_named(name: Option<Seq<char>>) -> Option<CopilotTransport> {
    match name {
        None => Some(CopilotTransport::Native),
        Some(name) => if name == "native"@ {
            Some(CopilotTransport::Native)
        } else if name == "official-cli"@ {
            Some(CopilotTransport::OfficialCli)
        } else {
            None
        },
    }
}

/// What comes of looking for a transport by its name, `unknown` being what is
/// said of a name that no transport has.
pub open spec fn transport_result(
    name: Option<Seq<char>>,
    unknown: Seq<char>,
    r: Result<CopilotTransport, CopilotError>,
) -> bool {
    match transport_named(name) {
        Some(transport) => r == Ok::<CopilotTransport, CopilotError>(transport),
        None => r matches Err(CopilotError::UnknownTransport { words }) && words@ == unknown,
    }
}

impl CopilotTransport {
    /// The transport's name.
    pub open spec fn text(self) -> Seq<char> {
        match self {
            CopilotTransport::Native => "native"@,
            CopilotTransport::OfficialCli => "official-cli"@,
        }
    }

    /// The transport that a name stands for; where no name is given, the
    /// native one. `unknown` is what is said of a name that no transport has.
    pub fn parse(name: Option<&str>, unknown: &str) -> (r: Result<CopilotTransport, CopilotError>)
        ensures
            transport_result(str_option(name), unknown@, r),
    {
        match name {
            None => Ok(CopilotTransport::Native),
            Some(name) => if str_eq(name, "native") {
                Ok(CopilotTransport::Native)
            } else if str_eq(name, "official-cli") {
                Ok(CopilotTransport::OfficialCli)
            } else {
                Err(CopilotError::UnknownTransport { words: unknown.to_owned() })
            },
        }
    }

    /// The transport's name.
    pub fn as_str(&self) -> (r: &'static str)
        ensures
            r@ == self.text(),
    {
        match self {
            CopilotTransport::Native => "native",
            CopilotTransport::OfficialCli => "official-cli",
        }
    }
}

/// A transport's name stands for it, and for no other.
pub proof fn law_transport_names(transport: CopilotTransport, other: CopilotTransport)
    ensures
        transport_named(Some(transport.text())) == Some(transport),
        transport.text() == other.text() ==> transport == other,
{
    reveal_strlit("native");
    reveal_strlit("official-cli");
    assert("native"@.len() != "official-cli"@.len());
}

/// The official CLI is used only where it is asked for by its name: without a
/// name the native transport is.
pub proof fn law_official_cli_is_asked_for(name: Option<Seq<char>>)
    ensures
        transport_named(name) == Some(CopilotTransport::OfficialCli) <==> name == Some(
            "official-cli"@,
        ),
        transport_named(None) == Some(CopilotTransport::Native),
{
    law_transport_names(CopilotTransport::Native, CopilotTransport::OfficialCli);
}

/// What the environment says of every new session.
#[derive(Debug)]
pub struct SessionSettings {
    /// `JCODE_COPILOT_MODEL`, where it is set.
    pub model: Option<String>,
    /// `JCODE_COPILOT_PREMIUM`, where it is set.
    pub premium: Option<String>,
}

/// What the environment says of Copilot.
pub struct CopilotEnvironment {
    /// `JCODE_COPILOT_TRANSPORT`, where it is set.
    pub transport: Option<String>,
    /// What is said of the transport's name where no transport has it.
    pub unknown_transport: String,
    pub settings: SessionSettings,
    /// `JCODE_COPILOT_PREFETCH_STARTUP_GRACE_MS`, where it is set.
    pub prefetch_grace_ms: Option<String>,
    /// Where the official CLI is, or why that is not known.
    pub cli_path: Result<PathBuf, String>,
    /// Whether there is a GitHub token.
    pub has_github_token: bool,
}

impl CopilotEnvironment {
    /// The transport that the environment selects, where it names one that
    /// exists.
    pub open spec fn selected(self) -> Option<CopilotTransport> {
        transport_named(text_option(self.transport))
    }

    /// The name of the transport, where it is set.
    fn transport_name(&self) -> (r: Option<&str>)
        ensures
            str_option(r) == text_option(self.transport),
    {
        match &self.transport {
            Some(name) => Some(name.as_str()),
            None => None,
        }
    }
}

/// The transport that the environment selects.
pub fn selected_transport(env: &CopilotEnvironment) -> (r: Result<CopilotTransport, CopilotError>)
    ensures
        transport_result(text_option(env.transport), env.unknown_transport@, r),
{
    CopilotTransport::parse(env.transport_name(), env.unknown_transport.as_str())
}

/// Whether the environment selects the official CLI.
pub fn official_cli_selected(env: &CopilotEnvironment) -> (r: bool)
    ensures
        r == (env.selected() == Some(CopilotTransport::OfficialCli)),
{
    match selected_transport(env) {
        Ok(CopilotTransport::OfficialCli) => true,
        _ => false,
    }
}

/// Whether the environment selects the official CLI and says where it is.
pub fn official_cli_configured(env: &CopilotEnvironment) -> (r: bool)
    ensures
        r == (env.selected() == Some(CopilotTransport::OfficialCli) && env.cli_path is Ok),
{
    official_cli_selected(env) && env.cli_path.is_ok()
}

/// Whether there is a GitHub token.
pub fn has_credentials(env: &CopilotEnvironment) -> (r: bool)
    ensures
        r == env.has_github_token,
{
    env.has_github_token
}

/// Whether there is a way to Copilot.
pub fn is_configured(env: &CopilotEnvironment) -> (r: bool)
    ensures
        r == ((env.selected() == Some(CopilotTransport::OfficialCli) && env.cli_path is Ok)
            || env.has_github_token),
{
    official_cli_configured(env) || has_credentials(env)
}

/// What is said where there is no way to Copilot.
pub open spec fn unavailable_reason(env: CopilotEnvironment) -> Seq<char> {
    match env.selected() {
        Some(CopilotTransport::OfficialCli) =>
            "GitHub Copilot official-cli transport is unavailable. Check JCODE_COPILOT_CLI_PATH and the official CLI ACP handshake."@,
        Some(CopilotTransport::Native) =>
            "GitHub Copilot credentials not available. Run `jcode login --provider copilot` first."@,
        None => env.unknown_transport@,
    }
}

/// What is said where there is no way to Copilot.
pub fn unavailable_message(env: &CopilotEnvironment) -> (r: String)
    ensures
        r@ == unavailable_reason(*env),
{
    match selected_transport(env) {
        Ok(CopilotTransport::OfficialCli) =>
            "GitHub Copilot official-cli transport is unavailable. Check JCODE_COPILOT_CLI_PATH and the official CLI ACP handshake.".to_owned(),
        Ok(CopilotTransport::Native) =>
            "GitHub Copilot credentials not available. Run `jcode login --provider copilot` first.".to_owned(),
        Err(error) => error.message(),
    }
}

/// How much a session may use of what is paid for by the request.
#[derive(Clone, Copy, Debug, PartialEq, Eq, Structural)]
pub enum PremiumMode {
    /// Every turn of the user counts.
    Normal,
    /// The first turn of the user in a session counts.
    OnePerSession,
    /// No turn counts.
    Zero,
}

/// The mode that the environment asks for.
pub open spec fn premium_mode_named(name: Option<Seq<char>>) -> PremiumMode {
    if name == Some("0"@) {
        PremiumMode::Zero
    } else if name == Some("1"@) {
        PremiumMode::OnePerSession
    } else {
        PremiumMode::Normal
    }
}

/// The mode that the environment asks for.
pub fn env_premium_mode(settings: &SessionSettings) -> (mode: PremiumMode)
    ensures
        mode == premium_mode_named(text_option(settings.premium)),
{
    match &settings.premium {
        Some(name) => if str_eq(name.as_str(), "0") {
            PremiumMode::Zero
        } else if str_eq(name.as_str(), "1") {
            PremiumMode::OnePerSession
        } else {
            PremiumMode::Normal
        },
        None => PremiumMode::Normal,
    }
}

/// The number that decimal digits denote, if they are digits alone.
pub open spec fn digits_value(s: Seq<char>) -> Option<nat>
    decreases s.len(),
{
    if s.len() == 0 {
        Some(0)
    } else if '0' <= s.last() <= '9' {
        match digits_value(s.drop_last()) {
            Some(n) => Some((10 * n + (s.last() as nat - '0' as nat)) as nat),
            None => None,
        }
    } else {
        None
    }
}

/// The number that a text denotes: digits, which a plus sign may precede, for a
/// number that a `u64` can hold.
pub open spec fn number_in(s: Seq<char>) -> Option<u64> {
    let digits = if s.len() > 0 && s[0] == '+' {
        s.skip(1)
    } else {
        s
    };
    match digits_value(digits) {
        Some(n) if digits.len() > 0 && n <= u64::MAX => Some(n as u64),
        _ => None,
    }
}

/// What is no number, or too large a one, does not become one by more digits.
proof fn lemma_no_number(s: Seq<char>, i: int)
    requires
        0 <= i <= s.len(),
    ensures
        digits_value(s.take(i)) is None ==> digits_value(s) is None,
        digits_value(s.take(i)) matches Some(n) ==> (digits_value(s) matches Some(m) ==> m >= n),
    decreases s.len(),
{
    if i == s.len() {
        assert(s.take(i) =~= s);
    } else {
        assert(s.drop_last().take(i) =~= s.take(i));
        lemma_no_number(s.drop_last(), i);
    }
}

/// The number that a text denotes.
pub fn parse_number(s: &str) -> (r: Option<u64>)
    ensures
        r == number_in(s@),
{
    let n = s.unicode_len();
    let signed = n > 0 && s.get_char(0) == '+';
    let from: usize = if signed {
        1
    } else {
        0
    };
    let digits = s.substring_char(from, n);
    let count = digits.unicode_len();
    proof {
        if signed {
            assert(digits@ =~= s@.skip(1));
        } else {
            assert(digits@ =~= s@);
        }
    }
    if count == 0 {
        return None;
    }
    let mut value: u64 = 0;
    let mut i: usize = 0;
    assert(digits@.take(0) =~= Seq::empty());
    while i < count
        invariant
            i <= count,
            count == digits@.len(),
            count > 0,
            digits_value(digits@.take(i as int)) == Some(value as nat),
            number_in(s@) == (match digits_value(digits@) {
                Some(n) if n <= u64::MAX => Some(n as u64),
                _ => None,
            }),
        decreases count - i,
    {
        let c = digits.get_char(i);
        proof {
            assert(digits@.take(i + 1).drop_last() =~= digits@.take(i as int));
            assert(digits@.take(i + 1).last() == c);
            lemma_no_number(digits@, i + 1);
        }
        if c < '0' || '9' < c {
            return None;
        }
        let digit: u64 = c as u64 - '0' as u64;
        if value > (u64::MAX - digit) / 10 {
            assert(10 * value + digit > u64::MAX);
            return None;
        }
        value = value * 10 + digit;
        i += 1;
    }
    assert(digits@.take(i as int) =~= digits@);
    Some(value)
}

/// The milliseconds after the start in which the models are not looked up.
pub const DEFAULT_PREFETCH_GRACE_MS: u64 = 2000;

/// The milliseconds after the start in which the models are not looked up.
pub fn startup_prefetch_grace_ms(env: &CopilotEnvironment) -> (ms: u64)
    ensures
        ms == (match text_option(env.prefetch_grace_ms) {
            Some(text) => match number_in(text) {
                Some(ms) => ms,
                None => DEFAULT_PREFETCH_GRACE_MS,
            },
            None => DEFAULT_PREFETCH_GRACE_MS,
        }),
{
    match &env.prefetch_grace_ms {
        Some(text) => match parse_number(text.as_str()) {
            Some(ms) => ms,
            None => DEFAULT_PREFETCH_GRACE_MS,
        },
        None => DEFAULT_PREFETCH_GRACE_MS,
    }
}

/// The digits of a number give the number, with a plus sign before them or
/// without; a text with any other character gives none.
pub proof fn law_numbers_are_read(n: u64, s: Seq<char>, i: int)
    ensures
        number_in(decimal_text(n as nat)) == Some(n),
        number_in(seq!['+'] + decimal_text(n as nat)) == Some(n),
        number_in(Seq::empty()) is None,
        0 <= i < s.len() && !('0' <= s[i] <= '9') && !(i == 0 && s[i] == '+') ==> number_in(s)
            is None,
{
    let text = decimal_text(n as nat);
    lemma_decimal_value(n as nat);
    law_decimal_numbers(n as nat, 0);
    assert('0' <= text[0] <= '9');
    let signed = seq!['+'] + text;
    assert(signed.skip(1) =~= text);
    if 0 <= i < s.len() && !('0' <= s[i] <= '9') && !(i == 0 && s[i] == '+') {
        lemma_digits_alone(s, i);
        if s[0] == '+' {
            assert(s.skip(1)[i - 1] == s[i]);
            lemma_digits_alone(s.skip(1), i - 1);
        }
    }
}

/// A number in decimal denotes the number.
proof fn lemma_decimal_value(n: nat)
    ensures
        digits_value(decimal_text(n)) == Some(n),
        decimal_text(n).len() > 0,
    decreases n,
{
    reveal_with_fuel(digits_value, 2);
    if n >= 10 {
        lemma_decimal_value(n / 10);
        assert(decimal_text(n).drop_last() =~= decimal_text(n / 10));
    } else {
        assert(decimal_text(n).drop_last() =~= Seq::<char>::empty());
    }
}

/// What holds anything but digits denotes no number.
proof fn lemma_digits_alone(s: Seq<char>, i: int)
    requires
        0 <= i < s.len(),
        !('0' <= s[i] <= '9'),
    ensures
        digits_value(s) is None,
    decreases s.len(),
{
    if i < s.len() - 1 {
        assert(s.drop_last()[i] == s[i]);
        lemma_digits_alone(s.drop_last(), i);
    }
}

/// The premium mode that the environment asks for: none counts for `0`, one in a
/// session for `1`, and all where it asks for anything else or for nothing.
pub proof fn law_premium_modes(name: Seq<char>)
    ensures
        premium_mode_named(Some("0"@)) == PremiumMode::Zero,
        premium_mode_named(Some("1"@)) == PremiumMode::OnePerSession,
        premium_mode_named(None) == PremiumMode::Normal,
        name != "0"@ && name != "1"@ ==> premium_mode_named(Some(name)) == PremiumMode::Normal,
{
    reveal_strlit("0");
    reveal_strlit("1");
    assert("0"@[0] == '0' && "1"@[0] == '1');
}

/// These two names are those of the transports, and no other text is one.
pub proof fn law_transports_by_name(name: Seq<char>, transport: CopilotTransport)
    ensures
        transport_named(Some("native"@)) == Some(CopilotTransport::Native),
        transport_named(Some("official-cli"@)) == Some(CopilotTransport::OfficialCli),
        name != "native"@ && name != "official-cli"@ ==> transport_named(Some(name)) is None,
        transport == CopilotTransport::Native ==> transport.text() == "native"@,
        transport == CopilotTransport::OfficialCli ==> transport.text() == "official-cli"@,
{
    law_transport_names(CopilotTransport::OfficialCli, CopilotTransport::Native);
}

/// Where there is no way to Copilot, the transport that is selected says what
/// can be done; where none is, it is said that its name is unknown.
pub proof fn law_missing_ways_are_explained(env: CopilotEnvironment)
    ensures
        env.transport is None || env.transport->0@ == "native"@ ==> unavailable_reason(env)
            == "GitHub Copilot credentials not available. Run `jcode login --provider copilot` first."@,
        env.transport is Some && env.transport->0@ == "official-cli"@ ==> unavailable_reason(env)
            == "GitHub Copilot official-cli transport is unavailable. Check JCODE_COPILOT_CLI_PATH and the official CLI ACP handshake."@,
        env.transport is Some && env.transport->0@ != "native"@ && env.transport->0@
            != "official-cli"@ ==> unavailable_reason(env) == env.unknown_transport@,
{
    law_transport_names(CopilotTransport::OfficialCli, CopilotTransport::Native);
}

/// Looking for a transport by its name gives the one that has it; for a name
/// that none has, it gives the words for that.
pub proof fn law_looking_for_transports(
    name: Seq<char>,
    unknown: Seq<char>,
    r: Result<CopilotTransport, CopilotError>,
)
    ensures
        transport_result(None, unknown, r) ==> r == Ok::<CopilotTransport, CopilotError>(
            CopilotTransport::Native,
        ),
        transport_result(Some("native"@), unknown, r) ==> r == Ok::<CopilotTransport, CopilotError>(
            CopilotTransport::Native,
        ),
        transport_result(Some("official-cli"@), unknown, r) ==> r == Ok::<
            CopilotTransport,
            CopilotError,
        >(CopilotTransport::OfficialCli),
        name != "native"@ && name != "official-cli"@ && transport_result(Some(name), unknown, r)
            ==> (r matches Err(CopilotError::UnknownTransport { words }) && words@ == unknown),
{
    law_transports_by_name(name, CopilotTransport::Native);
}

} // verus!
