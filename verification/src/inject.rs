//! The response transformer: appending a client payload to HTML bodies.
//!
//! An HTML response streamed to a viewer gets a short script appended to
//! the end of its body — here, a theme-setting script — without the body
//! ever being held in memory whole. [`BodyInjector`] is the streaming
//! wrapper: it forwards every upstream chunk unchanged, and only upon
//! observing end-of-stream emits one final synthetic chunk carrying the
//! payload. Responses whose content type is not HTML are left to the
//! original body producer untouched; [`should_inject`] is that decision.

use vstd::prelude::*;

verus! {

/// The display theme a viewer can be forced into.
#[derive(Clone, Copy, Debug, PartialEq, Eq, Structural)]
pub enum Theme {
    Light,
    Dark,
    Ayu,
    AutoAyu,
    AutoDark,
}

/// The script appended to an HTML body for `theme`: it writes the theme
/// choice into the viewer's local storage and reapplies it.
pub open spec fn spec_theme_payload(theme: Theme) -> Seq<char> {
    match theme {
        Theme::Light => r#"<script/> updateLocalStorage("preferred-dark-theme", "dark"); updateLocalStorage("theme", "light"); updateLocalStorage("use-system-theme", "false"); updateTheme() </script>"#@,
        Theme::Dark => r#"<script/> updateLocalStorage("preferred-dark-theme", "dark"); updateLocalStorage("theme", "dark"); updateLocalStorage("use-system-theme", "false"); updateTheme() </script>"#@,
        Theme::Ayu => r#"<script/> updateLocalStorage("preferred-dark-theme", "ayu"); updateLocalStorage("theme", "ayu"); updateLocalStorage("use-system-theme", "false"); updateTheme() </script>"#@,
        Theme::AutoAyu => r#"<script/> updateLocalStorage("preferred-dark-theme", "ayu"); updateLocalStorage("theme", "ayu"); updateLocalStorage("use-system-theme", "true"); updateTheme() </script>"#@,
        Theme::AutoDark => r#"<script/> updateLocalStorage("preferred-dark-theme", "dark"); updateLocalStorage("theme", "dark"); updateLocalStorage("use-system-theme", "true"); updateTheme() </script>"#@,
    }
}

/// The theme-setting script for `theme`.
pub fn theme_payload(theme: Theme) -> (r: &'static str)
    ensures
        r@ == spec_theme_payload(theme),
{
    match theme {
        Theme::Light => r#"<script/> updateLocalStorage("preferred-dark-theme", "dark"); updateLocalStorage("theme", "light"); updateLocalStorage("use-system-theme", "false"); updateTheme() </script>"#,
        Theme::Dark => r#"<script/> updateLocalStorage("preferred-dark-theme", "dark"); updateLocalStorage("theme", "dark"); updateLocalStorage("use-system-theme", "false"); updateTheme() </script>"#,
        Theme::Ayu => r#"<script/> updateLocalStorage("preferred-dark-theme", "ayu"); updateLocalStorage("theme", "ayu"); updateLocalStorage("use-system-theme", "false"); updateTheme() </script>"#,
        Theme::AutoAyu => r#"<script/> updateLocalStorage("preferred-dark-theme", "ayu"); updateLocalStorage("theme", "ayu"); updateLocalStorage("use-system-theme", "true"); updateTheme() </script>"#,
        Theme::AutoDark => r#"<script/> updateLocalStorage("preferred-dark-theme", "dark"); updateLocalStorage("theme", "dark"); updateLocalStorage("use-system-theme", "true"); updateTheme() </script>"#,
    }
}

/// Whether a content type announces HTML: it starts with `text/html`.
pub open spec fn spec_is_html(ct: Seq<char>) -> bool {
    ct.len() >= 9 && ct.subrange(0, 9) == "text/html"@
}

/// Whether `ct` announces an HTML body.
pub fn is_html_content_type(ct: &str) -> (r: bool)
    ensures
        r == spec_is_html(ct@),
{
    proof {
        reveal_strlit("text/html");
    }
    let n = ct.unicode_len();
    if n < 9 {
        return false;
    }
    let prefix = "text/html";
    let mut i: usize = 0;
    while i < 9
        invariant
            0 <= i <= 9,
            9 <= ct@.len(),
            prefix@ == "text/html"@,
            prefix@.len() == 9,
            forall|j: int| 0 <= j < i ==> ct@[j] == "text/html"@[j],
        decreases 9 - i,
    {
        if ct.get_char(i) != prefix.get_char(i) {
            proof {
                assert(ct@.subrange(0, 9)[i as int] == ct@[i as int]);
            }
            return false;
        }
        i += 1;
    }
    proof {
        assert(ct@.subrange(0, 9) =~= "text/html"@);
    }
    true
}

/// Whether to wrap a response's body at all: exactly when it carries a
/// content type that announces HTML. `None` stands for a response
/// without a readable content type; such a response passes through its
/// original producer untouched, zero extra bytes.
pub fn should_inject(ct: Option<&str>) -> (r: bool)
    ensures
        r == (ct matches Some(c) && spec_is_html(c@)),
{
    match ct {
        Some(c) => is_html_content_type(c),
        None => false,
    }
}

/// The streaming body wrapper: forwards chunks, appends one payload chunk
/// at end-of-stream.
pub struct BodyInjector {
    /// The payload still owed to the viewer; `None` once emitted.
    pub pending: Option<Vec<u8>>,
}

impl BodyInjector {
    /// A wrapper that still owes `payload` to the stream's end.
    pub fn new(payload: Vec<u8>) -> (r: Self)
        ensures
            r.pending == Some(payload),
    {
        BodyInjector { pending: Some(payload) }
    }

    /// One poll of the wrapped body: a data chunk from upstream passes
    /// through unchanged; upstream's end-of-stream yields the payload the
    /// first time and end-of-stream from then on, so the wrapper emits
    /// every upstream byte, then the payload exactly once, then nothing.
    pub fn on_poll(&mut self, upstream: Option<Vec<u8>>) -> (out: Option<Vec<u8>>)
        ensures
            upstream is Some ==> out == upstream && *final(self) == *old(self),
            upstream is None ==> out == old(self).pending && final(self).pending is None,
    {
        match upstream {
            Some(chunk) => Some(chunk),
            None => self.pending.take(),
        }
    }
}

/// The transformer's effect on a whole HTML body, chunk by chunk: the
/// output stream is the input stream followed by exactly one extra chunk
/// equal to the payload.
pub fn transform_chunks(chunks: Vec<Vec<u8>>, payload: Vec<u8>) -> (out: Vec<Vec<u8>>)
    ensures
        out@ == chunks@.push(payload),
{
    let ghost input = chunks@;
    let mut injector = BodyInjector::new(payload);
    let mut rest = chunks;
    let mut out: Vec<Vec<u8>> = Vec::new();
    while rest.len() > 0
        invariant
            injector.pending == Some(payload),
            input == out@ + rest@,
        decreases rest@.len(),
    {
        let ghost prev_out = out@;
        let ghost prev_rest = rest@;
        let chunk = rest.remove(0);
        let forwarded = injector.on_poll(Some(chunk));
        let c = forwarded.unwrap();
        out.push(c);
        proof {
            assert(prev_rest =~= seq![chunk] + rest@);
            assert(out@ =~= prev_out.push(chunk));
            assert(input =~= out@ + rest@);
        }
    }
    proof {
        assert(input =~= out@);
    }
    let tail = injector.on_poll(None);
    let last = tail.unwrap();
    out.push(last);
    proof {
        assert(out@ =~= input.push(payload));
    }
    out
}

} // verus!
