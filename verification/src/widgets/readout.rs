//! A value control's own name and number, and the line they sit on.
//!
//! The number is why the line exists: a screen is not told the working value
//! while an edit is open, so the control formats it itself and draws it on a
//! line it owns.
use vstd::prelude::*;
use vstd::string::*;
use vstd::utf8::*;

use crate::geometry::{Point, Rect, add_sat, clamp_to_i32, sat_i32, sub_sat};
use crate::host::canvas::Renderer;
use crate::host::chrome::{Chrome, Theme, ThemeMetric};
use crate::host::metrics::{Font, FontRole, TextMetrics};
use crate::host::Host;
use crate::host::drawing::{Drawn, extends};
use crate::view::trigger::trunc_div;

verus! {

/// The character for the decimal digit `d`.
pub open spec fn digit_char(d: int) -> char {
    if d == 0 {
        '0'
    } else if d == 1 {
        '1'
    } else if d == 2 {
        '2'
    } else if d == 3 {
        '3'
    } else if d == 4 {
        '4'
    } else if d == 5 {
        '5'
    } else if d == 6 {
        '6'
    } else if d == 7 {
        '7'
    } else if d == 8 {
        '8'
    } else {
        '9'
    }
}

/// The decimal digits of `n`, most significant first, with no leading zero
/// except for zero itself.
pub open spec fn decimal_digits(n: nat) -> Seq<char>
    decreases n,
{
    if n < 10 {
        seq![digit_char(n as int)]
    } else {
        decimal_digits(n / 10).push(digit_char((n % 10) as int))
    }
}

/// `v` written out in decimal, with a leading `-` when negative.
pub open spec fn decimal(v: int) -> Seq<char> {
    if v < 0 {
        seq!['-'] + decimal_digits((-v) as nat)
    } else {
        decimal_digits(v as nat)
    }
}

/// How many bytes `c` takes in UTF-8.
pub open spec fn utf8_width(c: char) -> nat {
    let u = c as u32;
    if u < 0x80 {
        1
    } else if u < 0x800 {
        2
    } else if u < 0x10000 {
        3
    } else {
        4
    }
}

/// How many bytes `s` takes in UTF-8.
pub open spec fn utf8_len(s: Seq<char>) -> nat
    decreases s.len(),
{
    if s.len() == 0 {
        0
    } else {
        utf8_width(s[0]) + utf8_len(s.drop_first())
    }
}

/// The longest run of whole characters from the front of `s` that fits in
/// `budget` bytes: cut at the first character that would not fit.
pub open spec fn fitting(s: Seq<char>, budget: int) -> Seq<char>
    decreases s.len(),
{
    if s.len() == 0 || utf8_width(s[0]) > budget {
        Seq::<char>::empty()
    } else {
        seq![s[0]] + fitting(s.drop_first(), budget - utf8_width(s[0]))
    }
}

/// The bytes a readout holds: the widest `i32` and a short suffix.
pub const CAPACITY: usize = 16;

/// What a readout of `value` with `suffix` shows: every digit, then as much
/// of the suffix, in whole characters, as fits the rest of the capacity.
pub open spec fn readout_text(value: int, suffix: Seq<char>) -> Seq<char> {
    decimal(value) + fitting(suffix, CAPACITY - decimal(value).len())
}

/// The character for the decimal digit `d`.
pub fn digit(d: u32) -> (r: char)
    requires
        d < 10,
    ensures
        r == digit_char(d as int),
{
    match d {
        0 => '0',
        1 => '1',
        2 => '2',
        3 => '3',
        4 => '4',
        5 => '5',
        6 => '6',
        7 => '7',
        8 => '8',
        _ => '9',
    }
}

/// How many bytes `c` takes in UTF-8.
pub fn char_width(c: char) -> (r: usize)
    ensures
        r == utf8_width(c),
{
    let u = c as u32;
    if u < 0x80 {
        1
    } else if u < 0x800 {
        2
    } else if u < 0x10000 {
        3
    } else {
        4
    }
}

/// Appends `c` to `s`: `String::push`.
#[verifier::external_body]
pub(crate) fn push_char(s: &mut String, c: char)
    ensures
        final(s)@ == old(s)@.push(c),
{
    s.push(c)
}

proof fn lemma_digits_len(n: nat, k: nat)
    requires
        k >= 1,
        n < pow10(k),
    ensures
        1 <= decimal_digits(n).len() <= k,
    decreases n,
{
    if n >= 10 {
        assert(k >= 2) by {
            if k == 1 {
                assert(pow10(1) == 10 * pow10(0));
            }
        }
        assert(n / 10 < pow10((k - 1) as nat)) by (nonlinear_arith)
            requires
                n < 10 * pow10((k - 1) as nat),
        {
        }
        lemma_pow10_step(k);
        lemma_digits_len(n / 10, (k - 1) as nat);
    }
}

/// Ten to the power `k`.
pub open spec fn pow10(k: nat) -> nat
    decreases k,
{
    if k == 0 {
        1
    } else {
        10 * pow10((k - 1) as nat)
    }
}

proof fn lemma_pow10_step(k: nat)
    requires
        k > 0,
    ensures
        pow10(k) == 10 * pow10((k - 1) as nat),
{
}

/// Appends the decimal digits of `n` to `out`.
pub(crate) fn push_digits(out: &mut String, n: u64)
    ensures
        final(out)@ == old(out)@ + decimal_digits(n as nat),
    decreases n,
{
    if n >= 10 {
        push_digits(out, n / 10);
    }
    let d = digit((n % 10) as u32);
    push_char(out, d);
    proof {
        if n >= 10 {
            assert(decimal_digits(n as nat) == decimal_digits((n / 10) as nat).push(d));
        } else {
            assert(decimal_digits(n as nat) =~= seq![d]);
        }
    }
}

proof fn lemma_fitting_prefix(s: Seq<char>, budget: int, i: int)
    requires
        0 <= i <= s.len(),
        utf8_len(s.take(i)) <= budget,
        i == s.len() || utf8_len(s.take(i)) + utf8_width(s[i]) > budget,
    ensures
        fitting(s, budget) == s.take(i),
    decreases i,
{
    if i == 0 {
        assert(s.take(0) =~= Seq::<char>::empty());
    } else {
        assert(s.take(i).drop_first() =~= s.drop_first().take(i - 1));
        assert(s.take(i)[0] == s[0]);
        if i < s.len() {
            assert(s[i] == s.drop_first()[i - 1]);
        }
        lemma_fitting_prefix(s.drop_first(), budget - utf8_width(s[0]), i - 1);
        assert(seq![s[0]] + s.drop_first().take(i - 1) =~= s.take(i));
    }
}

proof fn lemma_utf8_len_push(s: Seq<char>, c: char)
    ensures
        utf8_len(s.push(c)) == utf8_len(s) + utf8_width(c),
    decreases s.len(),
{
    if s.len() == 0 {
        assert(s.push(c).drop_first() =~= Seq::<char>::empty());
        assert(s.push(c)[0] == c);
        assert(utf8_len(Seq::<char>::empty()) == 0);
        assert(utf8_len(s) == 0);
    } else {
        assert(s.push(c).drop_first() =~= s.drop_first().push(c));
        assert(s.push(c)[0] == s[0]);
        lemma_utf8_len_push(s.drop_first(), c);
    }
}

/// The digits of `s` as bytes, one per character.
pub open spec fn ascii_bytes(s: Seq<char>) -> Seq<u8> {
    Seq::new(s.len(), |i: int| s[i] as u8)
}

proof fn lemma_digits_are_ascii(n: nat)
    ensures
        is_ascii_chars(decimal_digits(n)),
    decreases n,
{
    if n >= 10 {
        lemma_digits_are_ascii(n / 10);
        let d = decimal_digits(n / 10);
        assert forall|i: int| 0 <= i < decimal_digits(n).len() implies '\0' <= #[trigger] decimal_digits(
            n,
        )[i] <= '\u{7f}' by {
            if i < d.len() {
                assert(decimal_digits(n)[i] == d[i]);
            }
        }
    }
}

proof fn lemma_encode_concat(a: Seq<char>, b: Seq<char>)
    ensures
        encode_utf8(a + b) == encode_utf8(a) + encode_utf8(b),
    decreases a.len(),
{
    if a.len() == 0 {
        assert(a + b =~= b);
        assert(encode_utf8(a) + encode_utf8(b) =~= encode_utf8(b));
    } else {
        assert((a + b).drop_first() =~= a.drop_first() + b);
        assert((a + b)[0] == a[0]);
        lemma_encode_concat(a.drop_first(), b);
        assert(encode_utf8(a + b) =~= encode_utf8(a) + encode_utf8(b));
    }
}

proof fn lemma_encode_len(s: Seq<char>)
    ensures
        encode_utf8(s).len() == utf8_len(s),
    decreases s.len(),
{
    if s.len() > 0 {
        char_is_scalar(s[0]);
        lemma_encode_len(s.drop_first());
    }
}

/// Writes the decimal digits of `n` into `buf` from `at`, one byte each, and
/// returns where they end.
fn put_digits(buf: &mut [u8; 16], at: usize, n: u64) -> (end: usize)
    requires
        at + decimal_digits(n as nat).len() <= 16,
    ensures
        end == at + decimal_digits(n as nat).len(),
        final(buf)@.take(at as int) == old(buf)@.take(at as int),
        final(buf)@.subrange(at as int, end as int) == ascii_bytes(decimal_digits(n as nat)),
    decreases n,
{
    let mid = if n >= 10 {
        put_digits(buf, at, n / 10)
    } else {
        at
    };
    let d = digit((n % 10) as u32);
    let ghost before = buf@;
    buf[mid] = d as u8;
    proof {
        let ds = decimal_digits(n as nat);
        if n >= 10 {
            assert(ds == decimal_digits((n / 10) as nat).push(d));
        } else {
            assert(ds =~= seq![d]);
        }
        assert(buf@.take(at as int) =~= before.take(at as int));
        assert forall|k: int| 0 <= k < mid + 1 - at implies #[trigger] buf@.subrange(at as int, mid + 1)[k]
            == ascii_bytes(ds)[k] by {
            if k < mid - at {
                assert(before.subrange(at as int, mid as int)[k] == ascii_bytes(decimal_digits((n / 10) as nat))[k]);
            }
        }
        assert(buf@.subrange(at as int, mid + 1) =~= ascii_bytes(ds));
    }
    mid + 1
}

/// `core::str::from_utf8`: the bytes read as text, when they are valid
/// UTF-8, and nothing otherwise. The text is exactly those bytes.
#[verifier::external_body]
fn utf8(bytes: &[u8]) -> (r: Option<&str>)
    ensures
        r is Some <==> valid_utf8(bytes@),
        r matches Some(s) ==> s.spec_bytes() == bytes@,
{
    core::str::from_utf8(bytes).ok()
}

/// A value control's number as text, with its unit, in at most
/// [`CAPACITY`] bytes held in place rather than on the heap, so drawing a
/// number allocates nothing.
///
/// A suffix that does not fit loses whole characters from its end: a number
/// missing its unit still reads, while a number cut short would read as a
/// different number.
pub struct Readout {
    buf: [u8; 16],
    len: usize,
    text: Ghost<Seq<char>>,
}

impl Readout {
    /// The first `len` bytes are the text, in UTF-8.
    #[verifier::type_invariant]
    closed spec fn holds_text(self) -> bool {
        &&& self.len <= 16
        &&& self.buf@.take(self.len as int) == encode_utf8(self.text@)
    }

    /// What the readout shows.
    pub closed spec fn spec_text(&self) -> Seq<char> {
        self.text@
    }

    /// The readout of `value` followed by `suffix`.
    pub fn new(value: i32, suffix: &str) -> (r: Readout)
        ensures
            r.spec_text() == readout_text(value as int, suffix@),
    {
        let mut buf = [0u8; 16];
        let mut len: usize = 0;
        let magnitude: u32 = if value < 0 { (-(value as i64)) as u32 } else { value as u32 };
        proof {
            assert(pow10(10) == 10000000000) by {
                reveal_with_fuel(pow10, 11);
            }
            lemma_digits_len(magnitude as nat, 10);
            lemma_digits_are_ascii(magnitude as nat);
        }
        if value < 0 {
            buf[0] = 45u8;
            len = 1;
        }
        let ghost sign = buf@.take(len as int);
        len = put_digits(&mut buf, len, magnitude as u64);
        let ghost head = decimal(value as int);
        proof {
            let ds = decimal_digits(magnitude as nat);
            if value < 0 {
                assert(head =~= seq!['-'] + ds);
                assert(buf@.take(1) =~= sign);
                assert(buf@.take(len as int) =~= ascii_bytes(head)) by {
                    assert forall|i: int| 0 <= i < len implies buf@.take(len as int)[i] == ascii_bytes(head)[i] by {
                        if i >= 1 {
                            assert(buf@.subrange(1, len as int)[i - 1] == ascii_bytes(ds)[i - 1]);
                        }
                    }
                }
            } else {
                assert(head == ds);
                assert(buf@.take(len as int) =~= buf@.subrange(0, len as int));
            }
            assert(is_ascii_chars(head));
            is_ascii_chars_encode_utf8(head);
            assert(buf@.take(len as int) =~= encode_utf8(head));
        }
        let digits_len = len;
        let n = suffix.unicode_len();
        let mut used: usize = digits_len;
        let mut i: usize = 0;
        proof {
            assert(suffix@.take(0) =~= Seq::<char>::empty());
            assert(utf8_len(Seq::<char>::empty()) == 0);
            if n == 0 {
                lemma_fitting_prefix(suffix@, CAPACITY - digits_len, 0);
            }
        }
        while i < n
            invariant
                n == suffix@.len(),
                i <= n,
                head == decimal(value as int),
                digits_len == head.len(),
                digits_len <= 11,
                used == digits_len + utf8_len(suffix@.take(i as int)),
                used <= CAPACITY,
                i == n ==> fitting(suffix@, CAPACITY - digits_len) == suffix@.take(i as int),
            ensures
                i <= n,
                used == digits_len + utf8_len(suffix@.take(i as int)),
                used <= CAPACITY,
                fitting(suffix@, CAPACITY - digits_len) == suffix@.take(i as int),
            decreases n - i,
        {
            let c = suffix.get_char(i);
            let w = char_width(c);
            if used + w > CAPACITY {
                proof {
                    lemma_fitting_prefix(suffix@, CAPACITY - digits_len, i as int);
                }
                break;
            }
            proof {
                assert(suffix@.take(i + 1) =~= suffix@.take(i as int).push(c));
                lemma_utf8_len_push(suffix@.take(i as int), c);
            }
            used = used + w;
            i = i + 1;
            proof {
                if i == n {
                    lemma_fitting_prefix(suffix@, CAPACITY - digits_len, i as int);
                }
            }
        }
        let ghost fits = suffix@.take(i as int);
        let bytes = suffix.as_bytes();
        proof {
            lemma_encode_len(fits);
            lemma_encode_concat(fits, suffix@.skip(i as int));
            assert(fits + suffix@.skip(i as int) =~= suffix@);
            assert(bytes@.take(used - digits_len) =~= encode_utf8(fits));
        }
        let ghost prefix = buf@.take(digits_len as int);
        let mut j: usize = 0;
        while j < used - digits_len
            invariant
                digits_len <= used <= CAPACITY,
                j <= used - digits_len,
                len == digits_len,
                buf@.len() == 16,
                buf@.take(digits_len as int) == prefix,
                buf@.subrange(digits_len as int, digits_len + j) == bytes@.take(j as int),
                bytes@.take(used - digits_len) == encode_utf8(fits),
                bytes@.len() >= used - digits_len,
            decreases used - digits_len - j,
        {
            let ghost was = buf@;
            buf[digits_len + j] = bytes[j];
            proof {
                assert(buf@.take(digits_len as int) =~= was.take(digits_len as int));
                assert(buf@.subrange(digits_len as int, digits_len + j + 1) =~= bytes@.take(j + 1)) by {
                    assert forall|k: int| 0 <= k < j + 1 implies #[trigger] buf@.subrange(digits_len as int, digits_len + j + 1)[k]
                        == bytes@.take(j + 1)[k] by {
                        if k < j {
                            assert(was.subrange(digits_len as int, digits_len + j)[k] == bytes@.take(j as int)[k]);
                        }
                    }
                }
            }
            j = j + 1;
        }
        let ghost text = head + fits;
        proof {
            lemma_encode_concat(head, fits);
            assert(buf@.take(used as int) =~= encode_utf8(text)) by {
                assert forall|k: int| 0 <= k < used implies #[trigger] buf@.take(used as int)[k] == (prefix + encode_utf8(fits))[k] by {
                    if k >= digits_len {
                        assert(buf@.subrange(digits_len as int, used as int)[k - digits_len] == encode_utf8(fits)[k - digits_len]);
                    } else {
                        assert(buf@.take(digits_len as int)[k] == prefix[k]);
                    }
                }
            }
        }
        Readout { buf, len: used, text: Ghost(text) }
    }

    /// The readout as text.
    pub fn as_str(&self) -> (r: &str)
        ensures
            r@ == self.spec_text(),
    {
        proof {
            use_type_invariant(self);
            encode_utf8_valid_utf8(self.text@);
            encode_utf8_decode_utf8(self.text@);
        }
        let bytes = vstd::slice::slice_subrange(self.buf.as_slice(), 0, self.len);
        proof {
            assert(bytes@ =~= self.buf@.take(self.len as int));
        }
        match utf8(bytes) {
            Some(text) => {
                proof {
                    encode_utf8_decode_utf8(text@);
                }
                text
            },
            None => "",
        }
    }
}

/// The font a readout is drawn in: the interface font, so a control's number
/// matches the value in a list row above or below it.
pub fn font<H: TextMetrics>(host: &H) -> (r: Font)
    ensures
        r == Font::spec_role(host, FontRole::Ui),
{
    Font::ui(host)
}

/// The column a readout `width` wide starts at, right-aligned in `rect`.
pub open spec fn readout_x(rect: Rect, width: i32) -> int {
    sat_i32(sat_i32(rect.origin.x + rect.size.width) - width)
}

/// Draws `value` right-aligned against `rect`'s trailing edge, centred on its
/// line.
pub fn draw<H: Host>(host: &mut H, rect: Rect, value: i32, suffix: &str)
    ensures
        ({
            let face = Font::spec_role(old(host), FontRole::Ui);
            let text = readout_text(value as int, suffix@);
            let spare = sat_i32(rect.size.height - face.spec_line_height(old(host)));
            final(host).spec_drawn() == old(host).spec_drawn().push(
                Drawn::Text {
                    origin: Point {
                        x: readout_x(rect, face.spec_text_width(old(host), text)) as i32,
                        y: sat_i32(rect.origin.y + trunc_div(spare, 2)) as i32,
                    },
                    text,
                    font: face.spec_id(),
                    style: face.spec_style(),
                },
            )
        }),
{
    let face = font(&*host);
    let text = Readout::new(value, suffix);
    let width = face.text_width(&*host, text.as_str());
    let right = add_sat(rect.x(), rect.width());
    let x = sub_sat(right, width);
    let spare = sub_sat(rect.height(), face.line_height(&*host));
    let y = add_sat(rect.y(), spare / 2);
    Renderer::draw_text(host, Point::new(x, y), text.as_str(), face.id(), face.style());
}

/// The line above a value control carrying its name and its number.
pub struct Header<'a> {
    /// The control's name, when it carries one.
    pub title: Option<&'a str>,
    /// The value and its unit, when the control shows one.
    pub value: Option<(i32, &'static str)>,
}

impl<'a> Header<'a> {
    /// Whether there is neither a name nor a number to show.
    pub fn is_empty(&self) -> (r: bool)
        ensures
            r == (self.title is None && self.value is None),
    {
        self.title.is_none() && self.value.is_none()
    }

    /// What the header costs above the control, gap included, or zero.
    pub open spec fn spec_height<H: Host>(&self, host: &H) -> int {
        if self.title is None && self.value is None {
            0
        } else {
            sat_i32(
                Font::spec_role(host, FontRole::Ui).spec_line_height(host) + host.spec_metric(
                    ThemeMetric::SpacingSmall,
                ),
            )
        }
    }

    /// What the header costs above the control, gap included, or zero.
    pub fn height<H: Host>(&self, host: &H) -> (r: i32)
        ensures
            r == self.spec_height(host),
    {
        if self.is_empty() {
            return 0;
        }
        add_sat(font(host).line_height(host), Theme::metric(host, ThemeMetric::SpacingSmall))
    }

    /// Draws into the top of `rect`: the name at the leading edge, the number
    /// at the trailing one.
    pub fn render<H: Host>(&self, host: &mut H, rect: Rect)
        ensures
            extends(old(host).spec_drawn(), final(host).spec_drawn()),
            final(host).spec_drawn().len() == old(host).spec_drawn().len() + (if self.title is Some {
                1int
            } else {
                0
            }) + (if self.value is Some { 1int } else { 0 }),
            self.title matches Some(t) ==> ({
                let face = Font::spec_role(old(host), FontRole::Ui);
                final(host).spec_drawn()[old(host).spec_drawn().len() as int] == Drawn::Text {
                    origin: rect.origin,
                    text: t@,
                    font: face.spec_id(),
                    style: face.spec_style(),
                }
            }),
            self.value matches Some((v, suffix)) ==> (final(host).spec_drawn().last() matches Drawn::Text {
                text,
                ..
            } && text == readout_text(v as int, suffix@)),
    {
        if self.is_empty() {
            return;
        }
        let face = font(&*host);
        let line = Rect::new(rect.x(), rect.y(), rect.width(), face.line_height(&*host));
        match self.title {
            Some(title) => {
                Renderer::draw_text(host, Point::new(line.x(), line.y()), title, face.id(), face.style());
            },
            None => {},
        }
        match self.value {
            Some((value, suffix)) => draw(host, line, value, suffix),
            None => {},
        }
    }
}

} // verus!
