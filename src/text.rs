use vstd::prelude::*;
use vstd::string::StringExecFns;

verus! {

/// The decimal digits of `n`, most significant first.
pub open spec fn decimal(n: nat) -> Seq<char>
    decreases n,
{
    let d = (('0' as u8) + (n % 10) as u8) as char;
    if n < 10 {
        seq![d]
    } else {
        decimal(n / 10).push(d)
    }
}

/// Relies on u64's Display (through to_string): its decimal digits, most
/// significant first, with no sign or padding.
#[verifier::external_body]
fn to_decimal(n: u64) -> (r: String)
    ensures
        r@ == decimal(n as nat),
{
    n.to_string()
}

/// The text that mentions the user `user_id`.
pub open spec fn mention_of(user_id: u64) -> Seq<char> {
    "<@"@ + decimal(user_id as nat) + ">"@
}

/// Returns the text that mentions the user `user_id`.
pub fn mention(user_id: u64) -> (r: String)
    ensures
        r@ == mention_of(user_id),
{
    let mut s = String::from_str("<@");
    let digits = to_decimal(user_id);
    s.append(digits.as_str());
    s.append(">");
    s
}

/// The link to a message: under its guild, or under "@me" for a message
/// outside any guild.
pub open spec fn message_link_of(guild_id: Option<u64>, channel_id: u64, message_id: u64) -> Seq<
    char,
> {
    let prefix = match guild_id {
        Some(g) => decimal(g as nat),
        None => "@me"@,
    };
    "https://discord.com/channels/"@ + prefix + "/"@ + decimal(channel_id as nat) + "/"@
        + decimal(message_id as nat)
}

/// Returns the link to a message.
pub fn message_link(guild_id: Option<u64>, channel_id: u64, message_id: u64) -> (r: String)
    ensures
        r@ == message_link_of(guild_id, channel_id, message_id),
{
    let mut s = String::from_str("https://discord.com/channels/");
    match guild_id {
        Some(g) => {
            let digits = to_decimal(g);
            s.append(digits.as_str());
        },
        None => s.append("@me"),
    }
    s.append("/");
    let channel = to_decimal(channel_id);
    s.append(channel.as_str());
    s.append("/");
    let message = to_decimal(message_id);
    s.append(message.as_str());
    s
}

} // verus!
