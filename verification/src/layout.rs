//! How the screen is divided among the readings: one band for each, all of
//! the same height, stacked from the top.

use vstd::prelude::*;
use tui::layout::{Constraint, Direction, Layout, Rect};
use crate::influx_db::{Reading, StorageUsage};
use crate::tone::{classify, tone_of, Tone};

verus! {

/// The blank rim, in cells, that is left around the bands.
pub const MARGIN: u16 = 2;

/// A rectangle of cells on the screen.
#[derive(Clone, Copy, Debug, PartialEq, Eq, Structural)]
pub struct Area {
    pub x: u16,
    pub y: u16,
    pub width: u16,
    pub height: u16,
}

/// One gauge, ready to be painted.
#[derive(Debug)]
pub struct Gauge {
    /// Where it goes.
    pub area: Area,
    /// The drive's label.
    pub title: String,
    /// The tone of the bar.
    pub tone: Tone,
    /// How much of the bar is filled, in percent.
    pub percent: u16,
}

/// What a gauge shows, apart from where it goes.
pub struct Face {
    pub title: Seq<char>,
    pub tone: Tone,
    pub percent: nat,
}

impl Gauge {
    /// What the gauge shows.
    pub open spec fn face(self) -> Face {
        Face { title: self.title@, tone: self.tone, percent: self.percent as nat }
    }
}

/// What the gauge of a reading shows: the drive's label, the tone of the
/// measurement and its whole part.
pub open spec fn face_of(reading: Reading) -> Face {
    Face {
        title: reading.hardware,
        tone: tone_of(reading.value),
        percent: reading.value.truncated(),
    }
}

/// The height of each of `n` bands, in percent of the space: the `n`-th
/// part of 100, rounded down. Where 100 is no multiple of `n`, the bands
/// leave a rest of the space unused.
pub open spec fn band_share(n: nat) -> nat {
    if n == 0 {
        0
    } else {
        100nat / n
    }
}

/// The sum of a list of heights.
pub open spec fn total(heights: Seq<u16>) -> nat
    decreases heights.len(),
{
    if heights.len() == 0 {
        0
    } else {
        total(heights.drop_last()) + heights.last() as nat
    }
}

/// Bands of equal height never take more than the whole space, whatever
/// their number.
pub proof fn lemma_bands_fit(n: nat)
    ensures
        n * band_share(n) <= 100,
        n >= 1 ==> 100 - n < n * band_share(n),
{
    if n >= 1 {
        let q = (100nat / n) as int;
        let r = (100nat % n) as int;
        assert(100 == n * q + r) by {
            vstd::arithmetic::div_mod::lemma_fundamental_div_mod(100, n as int);
        }
    }
}

/// The sum of `k` heights that are all `share` is `k` times `share`.
pub proof fn lemma_total_of_equal(heights: Seq<u16>, share: u16)
    requires
        forall|i: int| 0 <= i < heights.len() ==> heights[i] == share,
    ensures
        total(heights) == heights.len() * share,
    decreases heights.len(),
{
    if heights.len() > 0 {
        lemma_total_of_equal(heights.drop_last(), share);
        assert(heights.len() * share == (heights.len() - 1) * share + share) by (nonlinear_arith);
    }
}

/// The height of each of `n` bands, in percent of the space.
pub fn band_percentage(n: usize) -> (share: u16)
    ensures
        share == band_share(n as nat),
{
    if n == 0 {
        0
    } else if n > 100 {
        proof {
            vstd::arithmetic::div_mod::lemma_basic_div(100, n as int);
        }
        0
    } else {
        (100 / n) as u16
    }
}

/// The heights of `n` bands of equal height, in percent of the space. For
/// no band the list is empty, and nothing is divided.
pub fn band_constraints(n: usize) -> (heights: Vec<u16>)
    ensures
        heights@.len() == n,
        forall|i: int| 0 <= i < n ==> heights@[i] == band_share(n as nat),
        total(heights@) == n * band_share(n as nat),
        total(heights@) <= 100,
{
    let share: u16 = band_percentage(n);
    let mut heights: Vec<u16> = Vec::with_capacity(n);
    let mut i: usize = 0;
    while i < n
        invariant
            i <= n,
            heights@.len() == i,
            forall|j: int| 0 <= j < i ==> heights@[j] == share,
        decreases n - i,
    {
        heights.push(share);
        i += 1;
    }
    proof {
        lemma_total_of_equal(heights@, share);
        lemma_bands_fit(n as nat);
    }
    heights
}

/// Whether the layout engine can divide `area`, less a rim of `margin`
/// cells, into bands of these heights without leaving the range of its
/// 16-bit coordinates: the area's far edges, twice the margin, and each
/// height times the area's height are at most 65535.
pub open spec fn divisible(area: Area, margin: u16, heights: Seq<u16>) -> bool {
    &&& 2 * margin <= u16::MAX
    &&& area.x + area.width <= u16::MAX
    &&& area.y + area.height <= u16::MAX
    &&& forall|i: int| 0 <= i < heights.len() ==> #[trigger] heights[i] * area.height <= u16::MAX
}

/// `tui::layout::Layout::split`, for a vertical layout with the given margin
/// and one percentage constraint for each height: the engine answers with
/// one rectangle for each constraint. Where the rectangles lie is left to
/// its solver, and nothing is claimed of it.
#[verifier::external_body]
fn split_vertically(area: Area, margin: u16, heights: &Vec<u16>) -> (chunks: Vec<Area>)
    requires
        divisible(area, margin, heights@),
    ensures
        chunks@.len() == heights@.len(),
{
    let constraints: Vec<Constraint> = heights.iter().map(|h| Constraint::Percentage(*h)).collect();
    let rect = Rect { x: area.x, y: area.y, width: area.width, height: area.height };
    Layout::default()
        .direction(Direction::Vertical)
        .margin(margin)
        .constraints(constraints)
        .split(rect)
        .iter()
        .map(|r| Area { x: r.x, y: r.y, width: r.width, height: r.height })
        .collect()
}

impl Area {
    /// Whether the area is one that can be divided into `n` bands of equal
    /// height.
    pub open spec fn holds(self, n: nat) -> bool {
        &&& self.x + self.width <= u16::MAX
        &&& self.y + self.height <= u16::MAX
        &&& (n >= 1 ==> band_share(n) * self.height <= u16::MAX)
    }

    /// Tests whether the area can be divided into `n` bands of equal height.
    pub fn can_hold(self, n: usize) -> (yes: bool)
        ensures
            yes == self.holds(n as nat),
    {
        let share: u32 = band_percentage(n) as u32;
        let height: u32 = self.height as u32;
        let right: u32 = self.x as u32 + self.width as u32;
        let bottom: u32 = self.y as u32 + self.height as u32;
        assert(share * height <= 100 * 65535) by (nonlinear_arith)
            requires
                share <= 100,
                height <= 65535,
        ;
        right <= 65535 && bottom <= 65535 && (n == 0 || share * height <= 65535)
    }
}

/// Pairs the readings with the places for them, first with first: a gauge
/// for each reading that has a place, showing the drive's label, the tone of
/// the measurement and its whole part.
pub fn gauges(rows: &Vec<StorageUsage>, chunks: &Vec<Area>) -> (list: Vec<Gauge>)
    ensures
        list@.len() == if rows@.len() <= chunks@.len() {
            rows@.len()
        } else {
            chunks@.len()
        },
        forall|i: int|
            0 <= i < list@.len() ==> (#[trigger] list@[i]).area == chunks@[i] && list@[i].face()
                == face_of(rows@[i]@),
{
    let count: usize = if rows.len() <= chunks.len() {
        rows.len()
    } else {
        chunks.len()
    };
    let mut list: Vec<Gauge> = Vec::with_capacity(count);
    let mut i: usize = 0;
    while i < count
        invariant
            i <= count,
            count <= rows@.len(),
            count <= chunks@.len(),
            list@.len() == i,
            forall|j: int|
                0 <= j < i ==> (#[trigger] list@[j]).area == chunks@[j] && list@[j].face()
                    == face_of(rows@[j]@),
        decreases count - i,
    {
        let row = &rows[i];
        list.push(
            Gauge {
                area: chunks[i],
                title: row.hardware.clone(),
                tone: classify(row.value),
                percent: row.value.to_u16(),
            },
        );
        i += 1;
    }
    list
}

/// Lays the readings out in `area`: as many bands as there are readings,
/// all of one height, and in each the gauge of one reading, in the
/// readings' order. Without readings there is nothing to show.
pub fn arrange(rows: &Vec<StorageUsage>, area: Area) -> (list: Vec<Gauge>)
    requires
        area.holds(rows@.len()),
    ensures
        list@.len() == rows@.len(),
        forall|i: int| 0 <= i < list@.len() ==> (#[trigger] list@[i]).face() == face_of(rows@[i]@),
{
    let heights = band_constraints(rows.len());
    let chunks = split_vertically(area, MARGIN, &heights);
    gauges(rows, &chunks)
}

} // verus!
