//! Clipboard images as message content.
use vstd::prelude::*;
use crate::conversation::{Content, ContentView, PartView};
use crate::settings::Settings;
use crate::text::{append_str, contains, has_infix, lower_of, lowercase, string_of};

verus! {

/// The standard, padded base64 text of some bytes.
pub uninterp spec fn base64_of(b: Seq<u8>) -> Seq<char>;

/// Relies on base64's `STANDARD` engine `encode`: the result depends on the bytes alone.
#[verifier::external_body]
fn base64_encode(b: &[u8]) -> (r: String)
    ensures
        r@ == base64_of(b@),
{
    base64::Engine::encode(&base64::engine::general_purpose::STANDARD, b)
}

/// The user's text followed by a PNG image given as a data URL.
pub open spec fn image_content(text: Seq<char>, png: Seq<u8>, detail: Seq<char>) -> ContentView {
    ContentView::Parts(seq![
        PartView::Text(text),
        PartView::Image { url: "data:image/png;base64,"@ + base64_of(png), detail },
    ])
}

/// The text of an input: its text, or nothing for any other content.
pub open spec fn input_text(c: ContentView) -> Seq<char> {
    match c {
        ContentView::Text(t) => t,
        _ => Seq::empty(),
    }
}

/// Turns the user's input into its text followed by a clipboard image (PNG bytes).
pub fn add_image_to_pipeline(input: &mut Content, png: &[u8], settings: &Settings)
    ensures
        final(input)@ == image_content(input_text(old(input)@), png@, settings.vision_detail@),
{
    let text = match &*input {
        Content::Text(t) => t.clone(),
        _ => String::new(),
    };
    *input = image_input(text.as_str(), png, settings.vision_detail.as_str());
}

fn image_input(text: &str, png: &[u8], detail: &str) -> (r: Content)
    ensures
        r@ == image_content(text@, png@, detail@),
{
    let mut url: Vec<char> = Vec::new();
    append_str(&mut url, "data:image/png;base64,");
    let encoded = base64_encode(png);
    append_str(&mut url, encoded.as_str());
    let mut parts: Vec<crate::conversation::Part> = Vec::new();
    parts.push(crate::conversation::Part::Text(text.to_owned()));
    parts.push(crate::conversation::Part::Image { url: string_of(&url), detail: detail.to_owned() });
    let r = Content::Parts(parts);
    assert(r@->Parts_0 =~= image_content(text@, png@, detail@)->Parts_0);
    r
}

/// Which configured command reads the clipboard, given the list of running processes:
/// Wayland's if a Wayland process runs, else Xorg's, else the marker of no support.
pub open spec fn clipboard_choice(s: Settings, processes: Seq<char>) -> Seq<char> {
    if has_infix(lower_of(processes), "wayland"@) {
        s.clipboard_command_wayland@
    } else if has_infix(lower_of(processes), "xorg"@) {
        s.clipboard_command_xorg@
    } else {
        s.clipboard_command_unsupported@
    }
}

/// The clipboard command for the desktop that `ps -A` reported in `processes`.
pub fn detect_clipboard_command(settings: &Settings, processes: &str) -> (r: String)
    ensures
        r@ == clipboard_choice(*settings, processes@),
{
    let low = lowercase(processes);
    if contains(low.as_str(), "wayland") {
        settings.clipboard_command_wayland.clone()
    } else if contains(low.as_str(), "xorg") {
        settings.clipboard_command_xorg.clone()
    } else {
        settings.clipboard_command_unsupported.clone()
    }
}

} // verus!
