//! The visual treatments of outbound replies: each has a fixed accent color
//! and an auto-generated title equal to the treatment name.
use vstd::prelude::*;
use vstd::string::*;

verus! {

/// An RGB accent color.
#[derive(Clone, Copy, Debug, PartialEq, Eq, Structural)]
pub struct Color {
    pub red: u8,
    pub green: u8,
    pub blue: u8,
}

/// The four visual treatments of a reply.
#[derive(Clone, Copy, Debug, PartialEq, Eq, Structural)]
pub enum EmbedType {
    Success,
    Failure,
    Confirmation,
    Warning,
}

impl EmbedType {
    /// The fixed accent color of each treatment.
    pub open spec fn color_spec(&self) -> Color {
        match self {
            EmbedType::Success => Color { red: 0x70, green: 0x55, blue: 0x44 },
            EmbedType::Failure => Color { red: 0xef, green: 0x43, blue: 0x3f },
            EmbedType::Confirmation => Color { red: 0x78, green: 0xb4, blue: 0x54 },
            EmbedType::Warning => Color { red: 0xff, green: 0xf2, blue: 0x36 },
        }
    }

    /// The treatment's name, as it appears in reply titles.
    pub open spec fn name_spec(&self) -> Seq<char> {
        match self {
            EmbedType::Success => "Success"@,
            EmbedType::Failure => "Failure"@,
            EmbedType::Confirmation => "Confirmation"@,
            EmbedType::Warning => "Warning"@,
        }
    }

    pub fn get_color(&self) -> (c: Color)
        ensures
            c == self.color_spec(),
    {
        match self {
            EmbedType::Success => Color { red: 0x70, green: 0x55, blue: 0x44 },
            EmbedType::Failure => Color { red: 0xef, green: 0x43, blue: 0x3f },
            EmbedType::Confirmation => Color { red: 0x78, green: 0xb4, blue: 0x54 },
            EmbedType::Warning => Color { red: 0xff, green: 0xf2, blue: 0x36 },
        }
    }

    pub fn to_string(&self) -> (r: String)
        ensures
            r@ == self.name_spec(),
    {
        match self {
            EmbedType::Success => String::from_str("Success"),
            EmbedType::Failure => String::from_str("Failure"),
            EmbedType::Confirmation => String::from_str("Confirmation"),
            EmbedType::Warning => String::from_str("Warning"),
        }
    }

    /// The auto-generated title of a reply with this treatment: the name
    /// followed by an exclamation mark.
    pub fn reply_title(&self) -> (r: String)
        ensures
            r@ == self.name_spec() + "!"@,
    {
        let mut r = self.to_string();
        r.append("!");
        r
    }
}

} // verus!
