//! Rendered output, as data: the session never touches the terminal itself.
//! It hands the driver a list of styled appends, and the driver draws them.

use vstd::prelude::*;
use vstd::string::*;

verus! {

/// The palette the driver maps onto the terminal's colors.
#[derive(Clone, Copy, PartialEq, Eq, Structural)]
pub enum TextColor {
    Cyan,
    Blue,
    Red,
    White,
    Black,
}

/// One styled append to the scrolling transcript pane.
pub struct RenderCommand {
    pub text: String,
    pub fg: TextColor,
    pub bg: TextColor,
}

/// The mathematical value of one styled append.
#[verifier::ext_equal]
pub ghost struct RenderV {
    pub text: Seq<char>,
    pub fg: TextColor,
    pub bg: TextColor,
}

impl View for RenderCommand {
    type V = RenderV;

    open spec fn view(&self) -> RenderV {
        RenderV { text: self.text@, fg: self.fg, bg: self.bg }
    }
}

/// The commands of a vector, as mathematical values, in the same order.
pub open spec fn renders_view(rs: Seq<RenderCommand>) -> Seq<RenderV> {
    rs.map_values(|r: RenderCommand| r@)
}

/// The label put before an echoed user line.
pub open spec fn user_prefix() -> Seq<char> {
    "You: "@
}

/// The label put before a rendered assistant reply.
pub open spec fn assistant_prefix() -> Seq<char> {
    "GPT: "@
}

/// The label put before any rendered error description.
pub open spec fn error_prefix() -> Seq<char> {
    "Error: "@
}

/// The line break closing every rendered line.
pub open spec fn newline() -> Seq<char> {
    "\n"@
}

/// The line shown when a request outlives its timeout, worded to point at a
/// connectivity cause rather than a generic failure.
pub open spec fn timeout_text() -> Seq<char> {
    "Error: Request timed out. Check your network connection."@
}

/// The line shown when a successful completion carries no candidate reply,
/// which the client's contract rules out.
pub open spec fn no_choice_text() -> Seq<char> {
    "Error: The completion returned no choices."@
}

/// The echo of one submitted line: its label, then the line itself.
pub open spec fn echo_renders(t: Seq<char>) -> Seq<RenderV> {
    seq![
        RenderV { text: user_prefix(), fg: TextColor::Cyan, bg: TextColor::Black },
        RenderV { text: t + newline(), fg: TextColor::White, bg: TextColor::Black },
    ]
}

/// The display of one assistant reply: its label, then the reply.
pub open spec fn reply_renders(t: Seq<char>) -> Seq<RenderV> {
    seq![
        RenderV { text: assistant_prefix(), fg: TextColor::Blue, bg: TextColor::Black },
        RenderV { text: t + newline(), fg: TextColor::White, bg: TextColor::Black },
    ]
}

/// The display of one client error: one red line carrying its description.
pub open spec fn error_renders(d: Seq<char>) -> Seq<RenderV> {
    seq![
        RenderV { text: error_prefix() + d + newline(), fg: TextColor::Red, bg: TextColor::Black },
    ]
}

/// The display of one timeout: one red, timeout-specific line.
pub open spec fn timeout_renders() -> Seq<RenderV> {
    seq![
        RenderV { text: timeout_text() + newline(), fg: TextColor::Red, bg: TextColor::Black },
    ]
}

/// The display of an empty candidate list: one red line naming the defect.
pub open spec fn no_choice_renders() -> Seq<RenderV> {
    seq![
        RenderV { text: no_choice_text() + newline(), fg: TextColor::Red, bg: TextColor::Black },
    ]
}

/// Build the echo of one submitted line.
pub fn echo_commands(text: &str) -> (r: Vec<RenderCommand>)
    ensures
        renders_view(r@) == echo_renders(text@),
{
    let mut r: Vec<RenderCommand> = Vec::new();
    r.push(RenderCommand {
        text: "You: ".to_owned(),
        fg: TextColor::Cyan,
        bg: TextColor::Black,
    });
    r.push(RenderCommand {
        text: text.to_owned().concat("\n"),
        fg: TextColor::White,
        bg: TextColor::Black,
    });
    proof {
        assert(renders_view(r@) =~= echo_renders(text@));
    }
    r
}

/// Build the display of one assistant reply.
pub fn reply_commands(text: &str) -> (r: Vec<RenderCommand>)
    ensures
        renders_view(r@) == reply_renders(text@),
{
    let mut r: Vec<RenderCommand> = Vec::new();
    r.push(RenderCommand {
        text: "GPT: ".to_owned(),
        fg: TextColor::Blue,
        bg: TextColor::Black,
    });
    r.push(RenderCommand {
        text: text.to_owned().concat("\n"),
        fg: TextColor::White,
        bg: TextColor::Black,
    });
    proof {
        assert(renders_view(r@) =~= reply_renders(text@));
    }
    r
}

/// Build the display of one client error.
pub fn error_commands(desc: &str) -> (r: Vec<RenderCommand>)
    ensures
        renders_view(r@) == error_renders(desc@),
{
    let mut r: Vec<RenderCommand> = Vec::new();
    r.push(RenderCommand {
        text: "Error: ".to_owned().concat(desc).concat("\n"),
        fg: TextColor::Red,
        bg: TextColor::Black,
    });
    proof {
        assert(renders_view(r@) =~= error_renders(desc@));
    }
    r
}

/// Build the display of one timeout.
pub fn timeout_commands() -> (r: Vec<RenderCommand>)
    ensures
        renders_view(r@) == timeout_renders(),
{
    let mut r: Vec<RenderCommand> = Vec::new();
    r.push(RenderCommand {
        text: "Error: Request timed out. Check your network connection.".to_owned().concat("\n"),
        fg: TextColor::Red,
        bg: TextColor::Black,
    });
    proof {
        assert(renders_view(r@) =~= timeout_renders());
    }
    r
}

/// Build the display of an empty candidate list.
pub fn no_choice_commands() -> (r: Vec<RenderCommand>)
    ensures
        renders_view(r@) == no_choice_renders(),
{
    let mut r: Vec<RenderCommand> = Vec::new();
    r.push(RenderCommand {
        text: "Error: The completion returned no choices.".to_owned().concat("\n"),
        fg: TextColor::Red,
        bg: TextColor::Black,
    });
    proof {
        assert(renders_view(r@) =~= no_choice_renders());
    }
    r
}

} // verus!
