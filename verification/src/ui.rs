//! What the tuner screen shows and where: centred boxes, the colour of the
//! detected note, the place of the tuning indicator, and the labels.

use vstd::prelude::*;
use crate::devices::ClatuneDevice;
use crate::notes::TunerData;
use crate::text::{
    all_digits, digits_value, lemma_decimal_stands_for_its_number, plus_signed_decimal, push_decimal,
    push_signed_decimal, signed_decimal,
};

verus! {

/// The width of the tuner, in cells.
pub const TUNER_WIDTH: u16 = 71;

/// The height of the tuner, in cells.
pub const TUNER_HEIGHT: u16 = 9;

/// A rectangle of terminal cells: its top left corner and its size.
#[derive(Debug, Clone, Copy, PartialEq, Eq)]
pub struct Area {
    pub x: u16,
    pub y: u16,
    pub width: u16,
    pub height: u16,
}

/// The size of a box to centre, and the margin to leave inside it on the left
/// and on the right.
#[derive(Debug, Clone, Copy, PartialEq, Eq)]
pub struct CenterOpts {
    pub width: u16,
    pub height: u16,
    pub margin: u16,
}

/// The colours the tuner draws notes with.
#[derive(Debug, Clone, Copy, PartialEq, Eq)]
pub enum TunerColor {
    Red,
    Yellow,
    Green,
    Gray,
}

/// The smaller of two sizes.
pub open spec fn min_u16(a: u16, b: u16) -> u16 {
    if a <= b { a } else { b }
}

/// Twice a margin, held at the largest `u16`.
pub open spec fn saturating_double(m: u16) -> u16 {
    if 2 * m > u16::MAX { u16::MAX } else { (2 * m) as u16 }
}

/// A sum of coordinates, held at the largest `u16`.
pub open spec fn saturating_plus(a: u16, b: u16) -> u16 {
    if a + b > u16::MAX { u16::MAX } else { (a + b) as u16 }
}

/// The rectangle left inside `a` with `horizontal` cells cut from its left and
/// right sides and `vertical` cells from its top and bottom: an empty rectangle at
/// the origin when the margins do not fit.
pub open spec fn inner_area(a: Area, horizontal: u16, vertical: u16) -> Area {
    let dh = saturating_double(horizontal);
    let dv = saturating_double(vertical);
    if a.width < dh || a.height < dv {
        Area { x: 0, y: 0, width: 0, height: 0 }
    } else {
        Area {
            x: saturating_plus(a.x, horizontal),
            y: saturating_plus(a.y, vertical),
            width: (a.width - dh) as u16,
            height: (a.height - dv) as u16,
        }
    }
}

/// Calls `ratatui::layout::Rect::inner` with a margin of `horizontal` and
/// `vertical` cells. Its source doubles each margin (saturating), returns the
/// zero rectangle when the doubled margins exceed the size, and otherwise moves
/// the corner by the margins (saturating) and shrinks the size by the doubled
/// margins; the contract states exactly that.
#[verifier::external_body]
fn rect_inner(a: Area, horizontal: u16, vertical: u16) -> (r: Area)
    ensures
        r == inner_area(a, horizontal, vertical),
{
    let rect = ratatui::layout::Rect { x: a.x, y: a.y, width: a.width, height: a.height };
    let inner = rect.inner(ratatui::layout::Margin { horizontal, vertical });
    Area { x: inner.x, y: inner.y, width: inner.width, height: inner.height }
}

/// The space left on each side, before the centred box, along one axis.
pub open spec fn centre_offset(outer: u16, inner: u16) -> int {
    if outer >= inner { (outer - inner) / 2 } else { 0 }
}

/// A box of the requested size (no larger than `r`) centred in `r`, with the
/// requested margin cut from its left and right.
pub open spec fn centered_area(opts: CenterOpts, r: Area) -> Area {
    inner_area(
        Area {
            x: (r.x + centre_offset(r.width, opts.width)) as u16,
            y: (r.y + centre_offset(r.height, opts.height)) as u16,
            width: min_u16(opts.width, r.width),
            height: min_u16(opts.height, r.height),
        },
        opts.margin,
        0,
    )
}

/// Whether the centred box's corner fits in the coordinates of the screen.
pub open spec fn can_center(opts: CenterOpts, r: Area) -> bool {
    &&& r.x + centre_offset(r.width, opts.width) <= u16::MAX
    &&& r.y + centre_offset(r.height, opts.height) <= u16::MAX
}

/// Whether [`centered_rect`] can centre a box of the requested size in `r`.
pub fn can_center_in(opts: CenterOpts, r: Area) -> (b: bool)
    ensures
        b == can_center(opts, r),
{
    let padding_vertical = r.height.saturating_sub(opts.height) / 2;
    let padding_horizontal = r.width.saturating_sub(opts.width) / 2;
    (r.x as u32) + (padding_horizontal as u32) <= 65535 && (r.y as u32) + (padding_vertical as u32) <= 65535
}

/// Centres a box of the requested size in `r`.
pub fn centered_rect(opts: CenterOpts, r: Area) -> (c: Area)
    requires
        can_center(opts, r),
    ensures
        c == centered_area(opts, r),
{
    let padding_vertical = r.height.saturating_sub(opts.height) / 2;
    let padding_horizontal = r.width.saturating_sub(opts.width) / 2;
    let width = if opts.width <= r.width { opts.width } else { r.width };
    let height = if opts.height <= r.height { opts.height } else { r.height };
    rect_inner(
        Area { x: r.x + padding_horizontal, y: r.y + padding_vertical, width, height },
        opts.margin,
        0,
    )
}

/// The colour of a cent offset: red beyond 50 cents either way, yellow beyond
/// 25, green otherwise.
pub open spec fn cent_color_of(cent: int) -> TunerColor {
    let off = if cent < 0 { -cent } else { cent };
    if off > 50 {
        TunerColor::Red
    } else if off > 25 {
        TunerColor::Yellow
    } else {
        TunerColor::Green
    }
}

/// The colour in which the detected note and its offset are drawn.
pub fn cent_color(cent: i32) -> (c: TunerColor)
    requires
        cent > i32::MIN,
    ensures
        c == cent_color_of(cent as int),
{
    let off = if cent < 0 { -cent } else { cent };
    if off > 50 {
        TunerColor::Red
    } else if off > 25 {
        TunerColor::Yellow
    } else {
        TunerColor::Green
    }
}

/// The cents the indicator can stand for, from the lowest to the highest at
/// which its place is computed without an overflow.
pub open spec fn indicator_in_range(cent: int) -> bool {
    -102 <= cent <= 192652
}

/// The number of cells left of the tuning indicator on its bar: 34 (the middle)
/// for an exact pitch, moving 34 cells per 100 cents, rounded toward the middle.
pub open spec fn indicator_place(cent: int) -> int {
    if cent < 0 {
        34 - (-cent * 34) / 100
    } else {
        34 + (cent * 34) / 100
    }
}

/// The number of cells left of the tuning indicator on its bar.
pub fn indicator_margin(cent: i32) -> (m: u16)
    requires
        indicator_in_range(cent as int),
    ensures
        m == indicator_place(cent as int),
{
    if cent < 0 {
        assert(34 <= cent * -34 <= 3468) by (nonlinear_arith)
            requires
                -102 <= cent < 0;
        let shift = cent * -34 / 100;
        assert(shift == (-cent * 34) / 100);
        34 - shift as u16
    } else {
        assert(0 <= cent * 34 <= 6550168) by (nonlinear_arith)
            requires
                0 <= cent <= 192652;
        let shift = cent * 34 / 100;
        34 + shift as u16
    }
}

/// The label under the bar: the offset with its sign, then ` cents`.
pub open spec fn cent_label_text(cent: int) -> Seq<char> {
    plus_signed_decimal(cent) + " cents"@
}

/// Writes the label under the bar.
pub fn cent_label(cent: i32) -> (s: String)
    ensures
        s@ == cent_label_text(cent as int),
{
    let mut s = String::new();
    if cent < 0 {
        proof { reveal_strlit("-"); }
        s.append("-");
        let magnitude: u64 = if cent == i32::MIN { 2147483648u64 } else { (-cent) as u64 };
        push_decimal(&mut s, magnitude);
    } else {
        proof { reveal_strlit("+"); }
        s.append("+");
        push_decimal(&mut s, cent as u64);
    }
    s.append(" cents");
    assert(s@ =~= cent_label_text(cent as int));
    s
}

/// One of the three notes as drawn: its name, its octave as text, whether a
/// sharp sign is drawn beside it, and its colour.
#[derive(Debug)]
pub struct PitchView {
    pub note: String,
    pub octave: String,
    pub is_sharp: bool,
    pub color: TunerColor,
}

/// Everything the tuner draws from its data.
#[derive(Debug)]
pub struct TunerView {
    pub pitches: [PitchView; 3],
    pub cent_color: TunerColor,
    pub indicator_margin: u16,
    pub cent_label: String,
}

/// The colour of the note at `position` (0 to 2) of the tuner: the middle one,
/// the detected note, in the colour of its offset; its neighbours in grey.
pub open spec fn pitch_color_of(position: int, cent: int) -> TunerColor {
    if position == 1 { cent_color_of(cent) } else { TunerColor::Gray }
}

fn pitch_view(data: &TunerData, position: usize, color: TunerColor) -> (v: PitchView)
    requires
        position < 3,
    ensures
        v.note@ == data.pitches@[position as int].note@,
        v.octave@ == signed_decimal(data.pitches@[position as int].octave as int),
        v.is_sharp == data.pitches@[position as int].is_sharp,
        v.color == color,
{
    let pitch = &data.pitches[position];
    let mut octave = String::new();
    push_signed_decimal(&mut octave, pitch.octave as i64);
    assert(octave@ =~= signed_decimal(pitch.octave as int));
    PitchView { note: pitch.note.clone(), octave, is_sharp: pitch.is_sharp, color }
}

/// What the tuner draws for its data.
pub fn tuner_view(data: &TunerData) -> (v: TunerView)
    requires
        indicator_in_range(data.cent as int),
    ensures
        forall|i: int| 0 <= i < 3 ==> {
            &&& (#[trigger] v.pitches@[i]).note@ == data.pitches@[i].note@
            &&& v.pitches@[i].octave@ == signed_decimal(data.pitches@[i].octave as int)
            &&& v.pitches@[i].is_sharp == data.pitches@[i].is_sharp
            &&& v.pitches@[i].color == pitch_color_of(i, data.cent as int)
        },
        v.cent_color == cent_color_of(data.cent as int),
        v.indicator_margin == indicator_place(data.cent as int),
        v.cent_label@ == cent_label_text(data.cent as int),
{
    let color = cent_color(data.cent);
    let pitches = [
        pitch_view(data, 0, TunerColor::Gray),
        pitch_view(data, 1, color),
        pitch_view(data, 2, TunerColor::Gray),
    ];
    TunerView {
        pitches,
        cent_color: color,
        indicator_margin: indicator_margin(data.cent),
        cent_label: cent_label(data.cent),
    }
}

/// The box of the device list: half the screen's width and a third of its
/// height, centred.
pub open spec fn popup_opts(area: Area) -> CenterOpts {
    CenterOpts { width: area.width / 2, height: area.height / 3, margin: 0 }
}

/// Where the device list is drawn on a screen of the given area.
pub fn popup_area(area: Area) -> (r: Area)
    requires
        can_center(popup_opts(area), area),
    ensures
        r == centered_area(popup_opts(area), area),
{
    centered_rect(CenterOpts { width: area.width / 2, height: area.height / 3, margin: 0 }, area)
}

/// The entries of the device list: the devices' names, in order.
pub fn device_labels(devices: &Vec<ClatuneDevice>) -> (labels: Vec<String>)
    ensures
        labels@.len() == devices@.len(),
        forall|i: int| 0 <= i < devices@.len() ==> (#[trigger] labels@[i])@ == devices@[i].name@,
{
    let mut labels: Vec<String> = Vec::new();
    let mut i: usize = 0;
    while i < devices.len()
        invariant
            i <= devices@.len(),
            labels@.len() == i,
            forall|j: int| 0 <= j < i ==> (#[trigger] labels@[j])@ == devices@[j].name@,
        decreases devices@.len() - i,
    {
        labels.push(devices[i].name.clone());
        i = i + 1;
    }
    labels
}

/// A box centred without margin lies inside the area it is centred in.
pub proof fn lemma_centered_box_inside(opts: CenterOpts, r: Area)
    requires
        opts.margin == 0,
        can_center(opts, r),
    ensures
        ({
            let c = centered_area(opts, r);
            &&& r.x <= c.x
            &&& c.x + c.width <= r.x + r.width
            &&& r.y <= c.y
            &&& c.y + c.height <= r.y + r.height
        }),
{
}

/// A box centred without margin leaves as much room on its left as on its
/// right, and above it as below it, to within one cell.
pub proof fn lemma_centered_box_balanced(opts: CenterOpts, r: Area)
    requires
        opts.margin == 0,
        can_center(opts, r),
    ensures
        ({
            let c = centered_area(opts, r);
            let left = c.x - r.x;
            let right = (r.x + r.width) - (c.x + c.width);
            let top = c.y - r.y;
            let bottom = (r.y + r.height) - (c.y + c.height);
            &&& left <= right <= left + 1
            &&& top <= bottom <= top + 1
        }),
{
}

/// The indicator never moves left when the pitch rises.
pub proof fn lemma_indicator_monotone(c1: int, c2: int)
    requires
        indicator_in_range(c1),
        indicator_in_range(c2),
        c1 <= c2,
    ensures
        indicator_place(c1) <= indicator_place(c2),
{
    if c1 < 0 && c2 < 0 {
        assert((-c2) * 34 <= (-c1) * 34) by (nonlinear_arith)
            requires
                c1 <= c2;
        vstd::arithmetic::div_mod::lemma_div_is_ordered((-c2) * 34, (-c1) * 34, 100);
    } else if c1 >= 0 && c2 >= 0 {
        assert(c1 * 34 <= c2 * 34) by (nonlinear_arith)
            requires
                c1 <= c2;
        vstd::arithmetic::div_mod::lemma_div_is_ordered(c1 * 34, c2 * 34, 100);
    } else {
        assert(0 <= (-c1) * 34 / 100 <= 34) by (nonlinear_arith)
            requires
                -102 <= c1 < 0;
        assert(0 <= c2 * 34 / 100) by (nonlinear_arith)
            requires
                0 <= c2;
    }
}

/// The indicator stands in the middle of its bar for an exact pitch, at the
/// left end 100 cents flat, at the right end 100 cents sharp, and on the bar in
/// between.
pub proof fn lemma_indicator_on_bar(cent: int)
    requires
        -100 <= cent <= 100,
    ensures
        0 <= indicator_place(cent) <= 68,
        indicator_place(0) == 34,
        indicator_place(-100) == 0,
        indicator_place(100) == 68,
{
    if cent < 0 {
        assert(0 <= (-cent) * 34 / 100 <= 34) by (nonlinear_arith)
            requires
                -100 <= cent < 0;
    } else {
        assert(0 <= cent * 34 / 100 <= 34) by (nonlinear_arith)
            requires
                0 <= cent <= 100;
    }
}

/// Flat and sharp by the same amount look alike.
pub proof fn lemma_cent_color_symmetric(cent: int)
    ensures
        cent_color_of(cent) == cent_color_of(-cent),
{
}

/// The colour goes by how far the pitch is off, either way: green up to 25
/// cents, yellow above 25 and up to 50, red above 50.
pub proof fn lemma_cent_color_bands(cent: int)
    ensures
        ({
            let off = if cent < 0 { -cent } else { cent };
            &&& cent_color_of(cent) == TunerColor::Green <==> off <= 25
            &&& cent_color_of(cent) == TunerColor::Yellow <==> 25 < off <= 50
            &&& cent_color_of(cent) == TunerColor::Red <==> off > 50
        }),
{
}

/// The severity of a colour: green, then yellow, then red.
pub open spec fn color_rank(c: TunerColor) -> int {
    match c {
        TunerColor::Green => 0,
        TunerColor::Yellow => 1,
        TunerColor::Red => 2,
        TunerColor::Gray => 3,
    }
}

/// The further off the pitch, the more severe the colour.
pub proof fn lemma_cent_color_monotone(c1: int, c2: int)
    requires
        (if c1 < 0 { -c1 } else { c1 }) <= (if c2 < 0 { -c2 } else { c2 }),
    ensures
        color_rank(cent_color_of(c1)) <= color_rank(cent_color_of(c2)),
{
}

/// The indicator stands off the middle cell (34) by the offset scaled to 34
/// cells per 100 cents, with the fraction of a cell dropped: `d` cells right of
/// the middle for a sharp pitch with `100·d ≤ 34·cent < 100·(d + 1)`, and left
/// alike for a flat one. So it leaves the middle from 3 cents on, either way.
pub proof fn lemma_indicator_is_scaled_offset(cent: int)
    requires
        indicator_in_range(cent),
    ensures
        cent >= 0 ==> {
            let d = indicator_place(cent) - 34;
            &&& 100 * d <= 34 * cent
            &&& 34 * cent < 100 * d + 100
        },
        cent < 0 ==> {
            let d = 34 - indicator_place(cent);
            &&& 100 * d <= -34 * cent
            &&& -34 * cent < 100 * d + 100
        },
        indicator_place(cent) == 34 <==> -3 < cent < 3,
        cent >= 3 ==> indicator_place(cent) > 34,
        cent <= -3 ==> indicator_place(cent) < 34,
{
    if cent >= 0 {
        assert(100 * ((cent * 34) / 100) <= 34 * cent < 100 * ((cent * 34) / 100) + 100) by (nonlinear_arith)
            requires
                cent >= 0;
        if cent >= 3 {
            assert((cent * 34) / 100 >= 1) by (nonlinear_arith)
                requires
                    cent >= 3;
        } else {
            assert((cent * 34) / 100 == 0) by (nonlinear_arith)
                requires
                    0 <= cent < 3;
        }
    } else {
        assert(100 * ((-cent * 34) / 100) <= -34 * cent < 100 * ((-cent * 34) / 100) + 100) by (nonlinear_arith)
            requires
                cent < 0;
        if cent <= -3 {
            assert((-cent * 34) / 100 >= 1) by (nonlinear_arith)
                requires
                    cent <= -3;
        } else {
            assert((-cent * 34) / 100 == 0) by (nonlinear_arith)
                requires
                    -3 < cent < 0;
        }
    }
}

/// A centred box is as large as requested where the area allows, smaller only
/// where the area is smaller; its margin is cut from both sides when it fits.
pub proof fn lemma_centered_box_size(opts: CenterOpts, r: Area)
    requires
        can_center(opts, r),
        r.x + r.width <= u16::MAX,
        2 * opts.margin <= (if opts.width <= r.width { opts.width } else { r.width }),
    ensures
        ({
            let c = centered_area(opts, r);
            let w = if opts.width <= r.width { opts.width } else { r.width };
            let h = if opts.height <= r.height { opts.height } else { r.height };
            &&& c.width == w - 2 * opts.margin
            &&& c.height == h
            &&& c.x == r.x + (r.width - w) / 2 + opts.margin
            &&& c.y == r.y + (r.height - h) / 2
        }),
{
}

/// Only the detected note, in the middle, takes the colour of its offset; its
/// neighbours are grey.
pub proof fn lemma_only_middle_note_colored(cent: int)
    ensures
        pitch_color_of(0, cent) == TunerColor::Gray,
        pitch_color_of(2, cent) == TunerColor::Gray,
        pitch_color_of(1, cent) == cent_color_of(cent),
        pitch_color_of(1, cent) != TunerColor::Gray,
{
}

/// The label under the bar reads as the offset: a `-` for a flat pitch and a
/// `+` otherwise, then the size of the offset in decimal digits, then ` cents`.
pub proof fn lemma_cent_label_reads_back(cent: int)
    ensures
        ({
            let t = cent_label_text(cent);
            let end = t.len() - 6;
            let off = if cent < 0 { -cent } else { cent };
            &&& 2 <= end
            &&& t[0] == (if cent < 0 { '-' } else { '+' })
            &&& all_digits(t.subrange(1, end))
            &&& digits_value(t.subrange(1, end)) == off
            &&& t.subrange(end, t.len() as int) == seq![' ', 'c', 'e', 'n', 't', 's']
        }),
{
    reveal_strlit(" cents");
    let off: nat = (if cent < 0 { -cent } else { cent }) as nat;
    lemma_decimal_stands_for_its_number(off);
    let t = cent_label_text(cent);
    let sign = if cent < 0 { '-' } else { '+' };
    assert(t =~= seq![sign] + crate::text::decimal(off) + " cents"@);
    let end = t.len() - 6;
    assert(t.subrange(1, end) =~= crate::text::decimal(off));
    assert(t.subrange(end, t.len() as int) =~= seq![' ', 'c', 'e', 'n', 't', 's']);
}

} // verus!
