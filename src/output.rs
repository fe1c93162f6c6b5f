//! The reply envelope that every command produces.
use vstd::prelude::*;
use vstd::string::*;

verus! {

/// The accent colours that replies use.
#[derive(Clone, Copy, Debug, PartialEq, Eq, Structural)]
pub enum Accent {
    Blue,
    DarkGold,
    DarkGreen,
    DarkRed,
    Red,
}

impl Accent {
    /// The colour as a 24-bit RGB value.
    pub open spec fn spec_rgb(self) -> u32 {
        match self {
            Accent::Blue => 0x3498DB,
            Accent::DarkGold => 0xC27C0E,
            Accent::DarkGreen => 0x1F8B4C,
            Accent::DarkRed => 0x992D22,
            Accent::Red => 0xE74C3C,
        }
    }

    /// The colour as a 24-bit RGB value.
    pub fn rgb(self) -> (r: u32)
        ensures
            r == self.spec_rgb(),
    {
        match self {
            Accent::Blue => 0x3498DB,
            Accent::DarkGold => 0xC27C0E,
            Accent::DarkGreen => 0x1F8B4C,
            Accent::DarkRed => 0x992D22,
            Accent::Red => 0xE74C3C,
        }
    }
}

/// A titled, coloured reply with an ordered list of `(heading, body, inline)`
/// fields, a footer and raw message content.
pub struct DiscordOutput {
    pub color: Accent,
    pub description: String,
    pub fields: Vec<(String, String, bool)>,
    pub footer: String,
    pub title: String,
    pub content: String,
}

/// The view of a field: heading, body and inline flag.
pub open spec fn field_view(f: (String, String, bool)) -> (Seq<char>, Seq<char>, bool) {
    (f.0@, f.1@, f.2)
}

impl DiscordOutput {
    /// Builds a reply from its parts.
    pub fn new(
        color: Accent,
        description: String,
        fields: Vec<(String, String, bool)>,
        footer: String,
        title: String,
        content: String,
    ) -> (r: Self)
        ensures
            r.color == color,
            r.description@ == description@,
            r.fields@ == fields@,
            r.footer@ == footer@,
            r.title@ == title@,
            r.content@ == content@,
    {
        DiscordOutput { color, description, fields, footer, title, content }
    }
}

/// The reply of a command that failed: red, with the failure's text as
/// footer and nothing else.
pub fn command_error_output(message: &str) -> (r: DiscordOutput)
    ensures
        r.color == Accent::Red,
        r.description@.len() == 0,
        r.fields@.len() == 0,
        r.footer@ == message@,
        r.title@.len() == 0,
        r.content@.len() == 0,
{
    DiscordOutput::new(
        Accent::Red,
        String::new(),
        Vec::new(),
        String::from_str(message),
        String::new(),
        String::new(),
    )
}

} // verus!
