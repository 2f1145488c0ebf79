//! A run of text on one line.
use vstd::prelude::*;

use crate::geometry::{Point, Size, clamp_zero};
use crate::host::metrics::{Font, FontRole, FontStyle, TextMetrics};
use crate::host::canvas::Renderer;
use crate::host::drawing::Drawn;
use crate::host::Host;
use crate::view::Interactions;

verus! {

/// Which face a piece of text is drawn in: a role the host resolves when the
/// text is laid out, or a font already resolved.
#[derive(Copy, Clone, Debug, PartialEq, Eq, Structural)]
pub enum TextFont {
    /// The host's font for a role, in a style.
    Role(FontRole, FontStyle),
    /// A font already resolved.
    Fixed(Font),
}

/// The font `choice` resolves to on `host`.
pub open spec fn spec_resolve<H: TextMetrics>(host: &H, choice: TextFont) -> (Font, FontStyle) {
    match choice {
        TextFont::Role(role, style) => (Font::spec_role(host, role), style),
        TextFont::Fixed(font) => (font, font.spec_style()),
    }
}

/// Draws a single line of text.
///
/// Size comes from the host's own font metrics, taken while the tree is laid
/// out and kept for [`View::size`].
pub struct Text {
    content: String,
    font: TextFont,
    measured: Size,
}

impl Text {
    /// What the text says.
    pub closed spec fn spec_content(&self) -> Seq<char> {
        self.content@
    }

    /// The face it is drawn in.
    pub closed spec fn spec_font(&self) -> TextFont {
        self.font
    }

    /// The size the last `measure` settled on.
    pub closed spec fn spec_measured(&self) -> Size {
        self.measured
    }

    /// Text in the default interface font.
    pub fn new(content: &str) -> (r: Self)
        ensures
            r.spec_content() == content@,
            r.spec_font() == TextFont::Role(FontRole::Ui, FontStyle::Regular),
            r.spec_measured() == (Size { width: 0, height: 0 }),
    {
        Text {
            content: content.to_owned(),
            font: TextFont::Role(FontRole::Ui, FontStyle::Regular),
            measured: Size::zero(),
        }
    }

    /// Draws in `font` instead of the default.
    pub fn font(self, font: Font) -> (r: Self)
        ensures
            r.spec_content() == self.spec_content(),
            r.spec_font() == TextFont::Fixed(font),
    {
        Text { content: self.content, font: TextFont::Fixed(font), measured: self.measured }
    }

    /// Draws bold.
    pub fn bold(self) -> (r: Self)
        ensures
            r.spec_content() == self.spec_content(),
            r.spec_font() == (match self.spec_font() {
                TextFont::Role(role, _) => TextFont::Role(role, FontStyle::Bold),
                TextFont::Fixed(font) => TextFont::Fixed(font.spec_with_style(FontStyle::Bold)),
            }),
    {
        self.styled(FontStyle::Bold)
    }

    /// Draws italic.
    pub fn italic(self) -> (r: Self)
        ensures
            r.spec_content() == self.spec_content(),
            r.spec_font() == (match self.spec_font() {
                TextFont::Role(role, _) => TextFont::Role(role, FontStyle::Italic),
                TextFont::Fixed(font) => TextFont::Fixed(font.spec_with_style(FontStyle::Italic)),
            }),
    {
        self.styled(FontStyle::Italic)
    }

    fn styled(self, style: FontStyle) -> (r: Self)
        ensures
            r.spec_content() == self.spec_content(),
            r.spec_font() == (match self.spec_font() {
                TextFont::Role(role, _) => TextFont::Role(role, style),
                TextFont::Fixed(font) => TextFont::Fixed(font.spec_with_style(style)),
            }),
    {
        let font = match self.font {
            TextFont::Role(role, _) => TextFont::Role(role, style),
            TextFont::Fixed(font) => TextFont::Fixed(font.with_style(style)),
        };
        Text { content: self.content, font, measured: self.measured }
    }

    /// The font this text is drawn in on `host`.
    pub fn resolved<H: TextMetrics>(&self, host: &H) -> (r: Font)
        ensures
            r == (match self.spec_font() {
                TextFont::Role(role, style) => Font::spec_role(host, role).spec_with_style(style),
                TextFont::Fixed(font) => font,
            }),
    {
        match self.font {
            TextFont::Role(role, style) => Font::role(host, role).with_style(style),
            TextFont::Fixed(font) => font,
        }
    }

    /// What the text says.
    pub fn content(&self) -> (r: &str)
        ensures
            r@ == self.spec_content(),
    {
        self.content.as_str()
    }
}

impl<M, H: Host> crate::view::View<M, H> for Text {
    /// Exactly as wide and as tall as the text is in its font.
    fn measure(&mut self, host: &H, available: Size)
        ensures
            ({
                let font = match old(self).spec_font() {
                    TextFont::Role(role, style) => Font::spec_role(host, role).spec_with_style(style),
                    TextFont::Fixed(font) => font,
                };
                &&& final(self).spec_measured().width == clamp_zero(
                    font.spec_text_width(host, old(self).spec_content()) as int,
                )
                &&& final(self).spec_measured().height == clamp_zero(font.spec_line_height(host) as int)
            }),
            final(self).spec_content() == old(self).spec_content(),
            final(self).spec_font() == old(self).spec_font(),
    {
        let font = self.resolved(host);
        self.measured = Size::new(
            font.text_width(host, self.content.as_str()),
            font.line_height(host),
        );
    }

    fn size(&self) -> Size {
        self.measured
    }

    /// One line of text at `origin`, in the font it resolves to.
    fn render(&self, host: &mut H, origin: Point)
        ensures
            ({
                let font = match self.spec_font() {
                    TextFont::Role(role, style) => Font::spec_role(old(host), role).spec_with_style(style),
                    TextFont::Fixed(font) => font,
                };
                final(host).spec_drawn() == old(host).spec_drawn().push(
                    Drawn::Text { origin, text: self.spec_content(), font: font.spec_id(), style: font.spec_style() },
                )
            }),
    {
        let font = self.resolved(&*host);
        Renderer::draw_text(host, origin, self.content.as_str(), font.id(), font.style());
    }

    /// Text is never interactive.
    fn interactions(&mut self, host: &H, origin: Point, out: &mut Interactions<M>)
        ensures
            *final(out) == *old(out),
    {
    }
}

} // verus!
