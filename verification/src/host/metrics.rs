//! Text measurement.
//!
//! The framework never estimates glyph sizes. Every width and height comes
//! from the host's own font engine.
use vstd::prelude::*;

verus! {

/// A font the host has registered, as a number only the host can interpret.
///
/// `0` means "this build does not ship that font".
#[derive(Copy, Clone, Debug, Default, PartialEq, Eq, Structural)]
pub struct FontId(
    /// The host's own number for the font; `0` is none.
    pub i32,
);

impl FontId {
    /// The font a build compiled out, which measures zero.
    pub fn unavailable() -> (r: FontId)
        ensures
            r.0 == 0,
    {
        FontId(0)
    }

    /// Whether this build ships the font.
    pub fn is_available(self) -> (r: bool)
        ensures
            r == (self.0 != 0),
    {
        self.0 != 0
    }
}

/// Weight and slant, as a host-independent value.
#[derive(Copy, Clone, Debug, PartialEq, Eq, Structural)]
pub enum FontStyle {
    /// Upright, regular weight.
    Regular,
    /// Heavier weight.
    Bold,
    /// Slanted.
    Italic,
    /// Both.
    BoldItalic,
}

impl Default for FontStyle {
    fn default() -> (r: Self)
        ensures
            r == FontStyle::Regular,
    {
        FontStyle::Regular
    }
}

/// What a piece of text is *for*, rather than which typeface it uses.
#[derive(Copy, Clone, Debug, PartialEq, Eq, Structural)]
pub enum FontRole {
    /// Interface text: labels, list rows, values.
    Ui,
    /// Smaller interface text, for captions and secondary labels.
    UiSmall,
    /// The face the user chose for reading.
    Reader,
}

/// Font lookup and measurement. Every answer is a pure function of the host's
/// fonts, stated against the `spec_` function of the same name.
pub trait TextMetrics {
    /// What `font` answers for `role`.
    spec fn spec_font(&self, role: FontRole) -> FontId;

    /// What `text_width` answers for `text`.
    spec fn spec_text_width(&self, font: FontId, text: Seq<char>, style: FontStyle) -> i32;

    /// What `line_height` answers for `font`.
    spec fn spec_line_height(&self, font: FontId) -> i32;

    /// The font for a role, or the unavailable font when this build ships none.
    fn font(&self, role: FontRole) -> (r: FontId)
        ensures
            r == self.spec_font(role),
    ;

    /// The width `text` paints at in `font` and `style`, in pixels.
    fn text_width(&self, font: FontId, text: &str, style: FontStyle) -> (r: i32)
        ensures
            r == self.spec_text_width(font, text@, style),
    ;

    /// The height one line of `font` occupies, ascent and descent included.
    fn line_height(&self, font: FontId) -> (r: i32)
        ensures
            r == self.spec_line_height(font),
    ;
}

/// A font plus the style it is drawn in, as widgets reach for it.
#[derive(Copy, Clone, Debug, PartialEq, Eq, Structural)]
pub struct Font {
    id: FontId,
    style: FontStyle,
}

impl Font {
    /// The face this font draws with.
    pub closed spec fn spec_id(self) -> FontId {
        self.id
    }

    /// The weight and slant it is drawn in.
    pub closed spec fn spec_style(self) -> FontStyle {
        self.style
    }

    /// The font `role` resolves to on `host`, in regular style.
    pub closed spec fn spec_role<H: TextMetrics>(host: &H, role: FontRole) -> Font {
        Font { id: host.spec_font(role), style: FontStyle::Regular }
    }

    /// The same face in `style`.
    pub closed spec fn spec_with_style(self, style: FontStyle) -> Font {
        Font { id: self.id, style }
    }

    /// What `line_height` answers on `host`.
    pub open spec fn spec_line_height<H: TextMetrics>(self, host: &H) -> i32 {
        if self.spec_id().0 == 0 { 0 } else { host.spec_line_height(self.spec_id()) }
    }

    /// What `text_width` answers on `host`.
    pub open spec fn spec_text_width<H: TextMetrics>(self, host: &H, text: Seq<char>) -> i32 {
        if self.spec_id().0 == 0 {
            0
        } else {
            host.spec_text_width(self.spec_id(), text, self.spec_style())
        }
    }

    /// A font this build does not ship, which measures zero.
    pub fn unavailable() -> (r: Font)
        ensures
            r.spec_id().0 == 0,
            r.spec_style() == FontStyle::Regular,
    {
        Font { id: FontId(0), style: FontStyle::Regular }
    }

    /// The host's font for `role`, in regular style.
    pub fn role<H: TextMetrics>(host: &H, role: FontRole) -> (r: Font)
        ensures
            r == Font::spec_role(host, role),
            r.spec_id() == host.spec_font(role),
            r.spec_style() == FontStyle::Regular,
    {
        Font { id: host.font(role), style: FontStyle::Regular }
    }

    /// Interface text: the default for every widget.
    pub fn ui<H: TextMetrics>(host: &H) -> (r: Font)
        ensures
            r == Font::spec_role(host, FontRole::Ui),
            r.spec_id() == host.spec_font(FontRole::Ui),
            r.spec_style() == FontStyle::Regular,
    {
        Self::role(host, FontRole::Ui)
    }

    /// Smaller interface text, for captions and secondary labels.
    pub fn ui_small<H: TextMetrics>(host: &H) -> (r: Font)
        ensures
            r == Font::spec_role(host, FontRole::UiSmall),
            r.spec_id() == host.spec_font(FontRole::UiSmall),
            r.spec_style() == FontStyle::Regular,
    {
        Self::role(host, FontRole::UiSmall)
    }

    /// The face the user chose for reading.
    pub fn reader<H: TextMetrics>(host: &H) -> (r: Font)
        ensures
            r == Font::spec_role(host, FontRole::Reader),
            r.spec_id() == host.spec_font(FontRole::Reader),
            r.spec_style() == FontStyle::Regular,
    {
        Self::role(host, FontRole::Reader)
    }

    /// The same font in bold, replacing any style set before.
    pub fn bold(self) -> (r: Self)
        ensures
            r == self.spec_with_style(FontStyle::Bold),
            r.spec_id() == self.spec_id(),
            r.spec_style() == FontStyle::Bold,
    {
        self.with_style(FontStyle::Bold)
    }

    /// The same font in italic, replacing any style set before.
    pub fn italic(self) -> (r: Self)
        ensures
            r == self.spec_with_style(FontStyle::Italic),
            r.spec_id() == self.spec_id(),
            r.spec_style() == FontStyle::Italic,
    {
        self.with_style(FontStyle::Italic)
    }

    /// The same font in `style`.
    pub fn with_style(self, style: FontStyle) -> (r: Self)
        ensures
            r == self.spec_with_style(style),
            r.spec_id() == self.spec_id(),
            r.spec_style() == style,
    {
        Font { id: self.id, style }
    }

    /// The host's id for the face.
    pub fn id(self) -> (r: FontId)
        ensures
            r == self.spec_id(),
    {
        self.id
    }

    /// The weight and slant it is drawn in.
    pub fn style(self) -> (r: FontStyle)
        ensures
            r == self.spec_style(),
    {
        self.style
    }

    /// Whether this build ships the face.
    pub fn is_available(self) -> (r: bool)
        ensures
            r == (self.spec_id().0 != 0),
    {
        self.id.is_available()
    }

    /// The height one line occupies, or 0 for a face this build lacks.
    pub fn line_height<H: TextMetrics>(self, host: &H) -> (r: i32)
        ensures
            r == self.spec_line_height(host),
    {
        if !self.is_available() {
            return 0;
        }
        host.line_height(self.id)
    }

    /// The width `text` paints at, or 0 for a face this build lacks.
    pub fn text_width<H: TextMetrics>(self, host: &H, text: &str) -> (r: i32)
        ensures
            r == self.spec_text_width(host, text@),
    {
        if !self.is_available() {
            return 0;
        }
        host.text_width(self.id, text, self.style)
    }
}

/// A face the build lacks takes no room: it measures zero, whatever the host.
pub proof fn lemma_unavailable_measures_zero<H: TextMetrics>(font: Font, host: &H, text: Seq<char>)
    requires
        font.spec_id().0 == 0,
    ensures
        font.spec_line_height(host) == 0,
        font.spec_text_width(host, text) == 0,
{
}

} // verus!
