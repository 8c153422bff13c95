//! The human-readable dump of a loaded configuration. The API token never
//! appears in it: the dump only says whether one is set.

use crate::config::{Config, ConfigView, PatchworkView};
use vstd::prelude::*;

verus! {

/// The character that writes the digit `digit`.
pub open spec fn digit_char(digit: nat) -> char
    recommends
        digit < 10,
{
    "0123456789"@[digit as int]
}

/// `number` in decimal, without leading zeros.
pub open spec fn decimal_text(number: nat) -> Seq<char>
    decreases number,
{
    if number < 10 {
        seq![digit_char(number)]
    } else {
        decimal_text(number / 10).push(digit_char(number % 10))
    }
}

/// What the dump shows for the token: a marker that tells a configured token
/// from an absent one, and nothing else.
pub open spec fn token_text(token: Option<Seq<char>>) -> Seq<char> {
    match token {
        Some(_) => "<redacted>"@,
        None => "<none>"@,
    }
}

/// The dump of `config`: one `field: value` line per field, the port as it
/// resolves, the token by its marker.
pub open spec fn diagnostic_text(config: ConfigView) -> Seq<char> {
    "name: "@ + config.name + "\ngit.user: "@ + config.git.user + "\ngit.public_key: "@
        + config.git.public_key + "\ngit.private_key: "@ + config.git.private_key
        + "\npatchwork.url: "@ + config.patchwork.url + "\npatchwork.port: "@ + decimal_text(
        config.patchwork.resolved_port() as nat,
    ) + "\npatchwork.token: "@ + token_text(config.patchwork.token)
}

fn digit_str(digit: u16) -> (text: &'static str)
    requires
        digit < 10,
    ensures
        text@ == seq![digit_char(digit as nat)],
{
    proof {
        reveal_strlit("0123456789");
        reveal_strlit("0");
        reveal_strlit("1");
        reveal_strlit("2");
        reveal_strlit("3");
        reveal_strlit("4");
        reveal_strlit("5");
        reveal_strlit("6");
        reveal_strlit("7");
        reveal_strlit("8");
        reveal_strlit("9");
    }
    let text = match digit {
        0 => "0",
        1 => "1",
        2 => "2",
        3 => "3",
        4 => "4",
        5 => "5",
        6 => "6",
        7 => "7",
        8 => "8",
        _ => "9",
    };
    assert(text@ =~= seq![digit_char(digit as nat)]);
    text
}

fn append_decimal(text: &mut String, number: u16)
    ensures
        final(text)@ == old(text)@ + decimal_text(number as nat),
    decreases number,
{
    if number >= 10 {
        append_decimal(text, number / 10);
    }
    text.append(digit_str(number % 10));
    assert(final(text)@ =~= old(text)@ + decimal_text(number as nat));
}

impl Config {
    /// The dump of this configuration, fit for a log or the console.
    pub fn diagnostic(&self) -> (text: String)
        ensures
            text@ == diagnostic_text(self@),
    {
        let mut text = String::from_str("name: ");
        text.append(self.name());
        text.append("\ngit.user: ");
        text.append(self.git().user());
        text.append("\ngit.public_key: ");
        text.append(self.git().public_key());
        text.append("\ngit.private_key: ");
        text.append(self.git().private_key());
        text.append("\npatchwork.url: ");
        text.append(self.patchwork().url());
        text.append("\npatchwork.port: ");
        append_decimal(&mut text, self.patchwork().port());
        text.append("\npatchwork.token: ");
        text.append(
            if self.patchwork().has_token() {
                "<redacted>"
            } else {
                "<none>"
            },
        );
        text
    }
}

/// The dump does not depend on the token's content: two configurations that
/// differ only in which token is set have the same dump.
pub proof fn diagnostic_hides_token(config: ConfigView, other_token: Seq<char>)
    requires
        config.patchwork.token is Some,
    ensures
        diagnostic_text(
            ConfigView {
                patchwork: PatchworkView { token: Some(other_token), ..config.patchwork },
                ..config
            },
        ) == diagnostic_text(config),
{
}

} // verus!
