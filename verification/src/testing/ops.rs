//! Everything the fake host was asked to draw, as text: one line per call, in
//! the order it was made, which is exactly a golden file's body.
//!
//! Deliberately flat and readable rather than serialised: the point of a
//! golden file is that whoever reads the diff can see what changed without
//! running anything.
use vstd::prelude::*;

use crate::geometry::{Point, Rect};
use crate::host::chrome::{ControlState, ListRowText};
use crate::host::metrics::FontStyle;
use crate::testing::host::{DrawOp, RectKind};
use crate::text::{push_count, push_int, push_quoted, push_text, quoted};
use crate::widgets::readout::{decimal, push_char};

verus! {

/// A point as `(x,y)`.
pub open spec fn point_text(p: Point) -> Seq<char> {
    "("@ + decimal(p.x as int) + ","@ + decimal(p.y as int) + ")"@
}

/// A rect as `(x,y WxH)`, the shape every line of a snapshot uses.
pub open spec fn rect_text(r: Rect) -> Seq<char> {
    "("@ + decimal(r.origin.x as int) + ","@ + decimal(r.origin.y as int) + " "@ + decimal(
        r.size.width as int,
    ) + "x"@ + decimal(r.size.height as int) + ")"@
}

/// An optional label: quoted, or `-` for none.
pub open spec fn optional(text: Option<String>) -> Seq<char> {
    match text {
        Some(s) => quoted(s@),
        None => "-"@,
    }
}

/// The word for a style.
pub open spec fn style_label(style: FontStyle) -> Seq<char> {
    match style {
        FontStyle::Regular => "regular"@,
        FontStyle::Bold => "bold"@,
        FontStyle::Italic => "italic"@,
        FontStyle::BoldItalic => "bold-italic"@,
    }
}

/// The word for how a rect was painted.
pub open spec fn kind_label(kind: RectKind) -> Seq<char> {
    match kind {
        RectKind::Filled => "filled"@,
        RectKind::Stroked => "stroked"@,
        RectKind::Dither => "dither"@,
        RectKind::Scrim => "scrim"@,
    }
}

/// Hint slot `i`, or the host's own label where there is no such slot.
pub open spec fn slot(slots: Seq<Option<String>>, i: int) -> Option<String> {
    if 0 <= i < slots.len() {
        slots[i]
    } else {
        None
    }
}

/// One indented line per list row, each on a line of its own.
pub open spec fn row_lines(rows: Seq<ListRowText>) -> Seq<char>
    decreases rows.len(),
{
    if rows.len() == 0 {
        Seq::empty()
    } else {
        let row = rows.last();
        row_lines(rows.drop_last()) + "\n  row "@ + decimal(rows.len() - 1) + "  title="@ + optional(
            row.title,
        ) + " subtitle="@ + optional(row.subtitle) + " value="@ + optional(row.value)
    }
}

/// One indented line per option, each on a line of its own.
pub open spec fn option_lines(options: Seq<String>) -> Seq<char>
    decreases options.len(),
{
    if options.len() == 0 {
        Seq::empty()
    } else {
        option_lines(options.drop_last()) + "\n  option "@ + decimal(options.len() - 1) + "  "@
            + quoted(options.last()@)
    }
}

/// The record of one call.
pub open spec fn spec_line(op: DrawOp) -> Seq<char> {
    match op {
        DrawOp::Clear => "clear"@,
        DrawOp::Text { origin, text, font, style } => "text        "@ + point_text(origin) + " "@
            + quoted(text@) + " font="@ + decimal(font as int) + " "@ + style_label(style),
        DrawOp::Rect { rect, kind, black } => "rect        "@ + rect_text(rect) + " "@ + kind_label(
            kind,
        ) + if kind == RectKind::Filled && !black {
            " background"@
        } else if kind == RectKind::Dither && black {
            " light"@
        } else {
            Seq::empty()
        },
        DrawOp::Line { from, to } => "line        "@ + point_text(from) + " -> "@ + point_text(to),
        DrawOp::Image { origin, size, bytes } => "image       "@ + point_text(origin) + " "@
            + decimal(size.width as int) + "x"@ + decimal(size.height as int) + " bytes="@ + decimal(
            bytes as int,
        ),
        DrawOp::Icon { origin, icon } => "icon        "@ + point_text(origin) + " kind="@ + decimal(
            icon.kind as int,
        ) + " variant="@ + decimal(icon.variant as int) + " size="@ + decimal(icon.size as int),
        DrawOp::Clip(clip) => match clip {
            Some(rect) => "clip        "@ + rect_text(rect),
            None => "clip        none"@,
        },
        DrawOp::Header { title, subtitle } => "header      title="@ + optional(title)
            + " subtitle="@ + optional(subtitle),
        DrawOp::SubHeader { rect, label, right } => "sub-header  "@ + rect_text(rect) + " "@
            + quoted(label@) + " right="@ + optional(right),
        DrawOp::Hints(slots) => "hints       back="@ + optional(slot(slots@, 0)) + " confirm="@
            + optional(slot(slots@, 1)) + " previous="@ + optional(slot(slots@, 2)) + " next="@
            + optional(slot(slots@, 3)),
        DrawOp::ProgressBar { rect, current, total } => "progress    "@ + rect_text(rect) + " "@
            + decimal(current as int) + "/"@ + decimal(total as int),
        DrawOp::Slider { rect, value, max, state } => "slider      "@ + rect_text(rect) + " "@
            + decimal(value as int) + "/"@ + decimal(max as int) + match state {
            ControlState::Idle => Seq::empty(),
            ControlState::Focused => " focused"@,
            ControlState::Editing => " editing"@,
        },
        DrawOp::ScrollIndicator { rect, content, visible, offset } => "scrollbar   "@ + rect_text(
            rect,
        ) + " content="@ + decimal(content as int) + " visible="@ + decimal(visible as int)
            + " offset="@ + decimal(offset as int),
        DrawOp::List { rect, selected, rows } => "list        "@ + rect_text(rect) + " rows="@
            + decimal(rows@.len() as int) + " selected="@ + decimal(selected as int) + row_lines(
            rows@,
        ),
        DrawOp::OptionPopup { title, selected, options } => "popup       "@ + quoted(title@)
            + " options="@ + decimal(options@.len() as int) + " selected="@ + decimal(
            selected as int,
        ) + option_lines(options@),
    }
}

/// Every record, each followed by a line ending.
pub open spec fn spec_render(ops: Seq<DrawOp>) -> Seq<char>
    decreases ops.len(),
{
    if ops.len() == 0 {
        Seq::empty()
    } else {
        spec_render(ops.drop_last()) + spec_line(ops.last()) + seq!['\n']
    }
}

/// Appends a point as `(x,y)`.
fn push_point(out: &mut String, p: Point)
    ensures
        final(out)@ == old(out)@ + point_text(p),
{
    push_text(out, "(");
    push_int(out, p.x as i64);
    push_text(out, ",");
    push_int(out, p.y as i64);
    push_text(out, ")");
    proof {
        assert(out@ =~= old(out)@ + point_text(p));
    }
}

/// Appends a rect as `(x,y WxH)`.
fn push_rect(out: &mut String, r: Rect)
    ensures
        final(out)@ == old(out)@ + rect_text(r),
{
    push_text(out, "(");
    push_int(out, r.origin.x as i64);
    push_text(out, ",");
    push_int(out, r.origin.y as i64);
    push_text(out, " ");
    push_int(out, r.size.width as i64);
    push_text(out, "x");
    push_int(out, r.size.height as i64);
    push_text(out, ")");
    proof {
        assert(out@ =~= old(out)@ + rect_text(r));
    }
}

/// Appends an optional label: quoted, or `-`.
fn push_optional(out: &mut String, text: &Option<String>)
    ensures
        final(out)@ == old(out)@ + optional(*text),
{
    match text {
        Some(s) => push_quoted(out, s.as_str()),
        None => push_text(out, "-"),
    }
}

/// The hint slot numbered `i`, or none.
fn slot_at(slots: &Vec<Option<String>>, i: usize) -> (r: &Option<String>)
    ensures
        *r == slot(slots@, i as int),
{
    if i < slots.len() {
        &slots[i]
    } else {
        &None
    }
}

impl DrawOp {
    /// One line of a snapshot. A list or a dialog continues on indented
    /// lines, one per row.
    pub fn to_line(&self) -> (r: String)
        ensures
            r@ == spec_line(*self),
    {
        let mut out = String::new();
        match self {
            DrawOp::Clear => push_text(&mut out, "clear"),
            DrawOp::Text { origin, text, font, style } => {
                push_text(&mut out, "text        ");
                push_point(&mut out, *origin);
                push_text(&mut out, " ");
                push_quoted(&mut out, text.as_str());
                push_text(&mut out, " font=");
                push_int(&mut out, *font as i64);
                push_text(&mut out, " ");
                match style {
                    FontStyle::Regular => push_text(&mut out, "regular"),
                    FontStyle::Bold => push_text(&mut out, "bold"),
                    FontStyle::Italic => push_text(&mut out, "italic"),
                    FontStyle::BoldItalic => push_text(&mut out, "bold-italic"),
                }
            },
            DrawOp::Rect { rect, kind, black } => {
                push_text(&mut out, "rect        ");
                push_rect(&mut out, *rect);
                push_text(&mut out, " ");
                match kind {
                    RectKind::Filled => push_text(&mut out, "filled"),
                    RectKind::Stroked => push_text(&mut out, "stroked"),
                    RectKind::Dither => push_text(&mut out, "dither"),
                    RectKind::Scrim => push_text(&mut out, "scrim"),
                }
                if *kind == RectKind::Filled && !*black {
                    push_text(&mut out, " background");
                } else if *kind == RectKind::Dither && *black {
                    push_text(&mut out, " light");
                }
            },
            DrawOp::Line { from, to } => {
                push_text(&mut out, "line        ");
                push_point(&mut out, *from);
                push_text(&mut out, " -> ");
                push_point(&mut out, *to);
            },
            DrawOp::Image { origin, size, bytes } => {
                push_text(&mut out, "image       ");
                push_point(&mut out, *origin);
                push_text(&mut out, " ");
                push_int(&mut out, size.width as i64);
                push_text(&mut out, "x");
                push_int(&mut out, size.height as i64);
                push_text(&mut out, " bytes=");
                push_count(&mut out, *bytes as u64);
            },
            DrawOp::Icon { origin, icon } => {
                push_text(&mut out, "icon        ");
                push_point(&mut out, *origin);
                push_text(&mut out, " kind=");
                push_count(&mut out, icon.kind as u64);
                push_text(&mut out, " variant=");
                push_count(&mut out, icon.variant as u64);
                push_text(&mut out, " size=");
                push_int(&mut out, icon.size as i64);
            },
            DrawOp::Clip(clip) => match clip {
                Some(rect) => {
                    push_text(&mut out, "clip        ");
                    push_rect(&mut out, *rect);
                },
                None => push_text(&mut out, "clip        none"),
            },
            DrawOp::Header { title, subtitle } => {
                push_text(&mut out, "header      title=");
                push_optional(&mut out, title);
                push_text(&mut out, " subtitle=");
                push_optional(&mut out, subtitle);
            },
            DrawOp::SubHeader { rect, label, right } => {
                push_text(&mut out, "sub-header  ");
                push_rect(&mut out, *rect);
                push_text(&mut out, " ");
                push_quoted(&mut out, label.as_str());
                push_text(&mut out, " right=");
                push_optional(&mut out, right);
            },
            DrawOp::Hints(slots) => {
                push_text(&mut out, "hints       back=");
                push_optional(&mut out, slot_at(slots, 0));
                push_text(&mut out, " confirm=");
                push_optional(&mut out, slot_at(slots, 1));
                push_text(&mut out, " previous=");
                push_optional(&mut out, slot_at(slots, 2));
                push_text(&mut out, " next=");
                push_optional(&mut out, slot_at(slots, 3));
            },
            DrawOp::ProgressBar { rect, current, total } => {
                push_text(&mut out, "progress    ");
                push_rect(&mut out, *rect);
                push_text(&mut out, " ");
                push_count(&mut out, *current as u64);
                push_text(&mut out, "/");
                push_count(&mut out, *total as u64);
            },
            DrawOp::Slider { rect, value, max, state } => {
                push_text(&mut out, "slider      ");
                push_rect(&mut out, *rect);
                push_text(&mut out, " ");
                push_int(&mut out, *value as i64);
                push_text(&mut out, "/");
                push_int(&mut out, *max as i64);
                match state {
                    ControlState::Idle => {},
                    ControlState::Focused => push_text(&mut out, " focused"),
                    ControlState::Editing => push_text(&mut out, " editing"),
                }
            },
            DrawOp::ScrollIndicator { rect, content, visible, offset } => {
                push_text(&mut out, "scrollbar   ");
                push_rect(&mut out, *rect);
                push_text(&mut out, " content=");
                push_int(&mut out, *content as i64);
                push_text(&mut out, " visible=");
                push_int(&mut out, *visible as i64);
                push_text(&mut out, " offset=");
                push_int(&mut out, *offset as i64);
            },
            DrawOp::List { rect, selected, rows } => {
                push_text(&mut out, "list        ");
                push_rect(&mut out, *rect);
                push_text(&mut out, " rows=");
                push_count(&mut out, rows.len() as u64);
                push_text(&mut out, " selected=");
                push_int(&mut out, *selected as i64);
                push_rows(&mut out, rows);
            },
            DrawOp::OptionPopup { title, selected, options } => {
                push_text(&mut out, "popup       ");
                push_quoted(&mut out, title.as_str());
                push_text(&mut out, " options=");
                push_count(&mut out, options.len() as u64);
                push_text(&mut out, " selected=");
                push_int(&mut out, *selected as i64);
                push_options(&mut out, options);
            },
        }
        proof {
            assert(out@ =~= spec_line(*self));
        }
        out
    }
}

/// Appends one indented line per list row.
fn push_rows(out: &mut String, rows: &Vec<ListRowText>)
    ensures
        final(out)@ == old(out)@ + row_lines(rows@),
{
    let mut i: usize = 0;
    proof {
        assert(rows@.take(0) =~= Seq::<ListRowText>::empty());
        assert(out@ =~= old(out)@ + row_lines(rows@.take(0)));
    }
    while i < rows.len()
        invariant
            i <= rows@.len(),
            out@ == old(out)@ + row_lines(rows@.take(i as int)),
        decreases rows@.len() - i,
    {
        let ghost before = out@;
        let row = &rows[i];
        push_text(out, "\n  row ");
        push_count(out, i as u64);
        push_text(out, "  title=");
        push_optional(out, &row.title);
        push_text(out, " subtitle=");
        push_optional(out, &row.subtitle);
        push_text(out, " value=");
        push_optional(out, &row.value);
        proof {
            let next = rows@.take(i + 1);
            assert(next.drop_last() =~= rows@.take(i as int));
            assert(next.last() == rows@[i as int]);
            assert(out@ =~= old(out)@ + row_lines(next));
        }
        i = i + 1;
    }
    proof {
        assert(rows@.take(rows@.len() as int) =~= rows@);
    }
}

/// Appends one indented line per option.
fn push_options(out: &mut String, options: &Vec<String>)
    ensures
        final(out)@ == old(out)@ + option_lines(options@),
{
    let mut i: usize = 0;
    proof {
        assert(options@.take(0) =~= Seq::<String>::empty());
        assert(out@ =~= old(out)@ + option_lines(options@.take(0)));
    }
    while i < options.len()
        invariant
            i <= options@.len(),
            out@ == old(out)@ + option_lines(options@.take(i as int)),
        decreases options@.len() - i,
    {
        push_text(out, "\n  option ");
        push_count(out, i as u64);
        push_text(out, "  ");
        push_quoted(out, options[i].as_str());
        proof {
            let next = options@.take(i + 1);
            assert(next.drop_last() =~= options@.take(i as int));
            assert(next.last() == options@[i as int]);
            assert(out@ =~= old(out)@ + option_lines(next));
        }
        i = i + 1;
    }
    proof {
        assert(options@.take(options@.len() as int) =~= options@);
    }
}

/// Every record as text, one per line: a golden file's body.
pub fn render(ops: &[DrawOp]) -> (r: String)
    ensures
        r@ == spec_render(ops@),
{
    let mut out = String::new();
    let mut i: usize = 0;
    proof {
        assert(ops@.take(0) =~= Seq::<DrawOp>::empty());
    }
    while i < ops.len()
        invariant
            i <= ops@.len(),
            out@ == spec_render(ops@.take(i as int)),
        decreases ops@.len() - i,
    {
        let line = ops[i].to_line();
        push_text(&mut out, line.as_str());
        push_char(&mut out, '\n');
        proof {
            let next = ops@.take(i + 1);
            assert(next.drop_last() =~= ops@.take(i as int));
            assert(next.last() == ops@[i as int]);
        }
        i = i + 1;
    }
    proof {
        assert(ops@.take(ops@.len() as int) =~= ops@);
    }
    out
}

} // verus!
