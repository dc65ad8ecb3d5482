use vstd::prelude::*;

verus! {

/// An 8-bit RGB colour.
#[derive(Clone, Copy, Debug, PartialEq, Eq, Structural)]
pub struct Color {
    pub red: u8,
    pub green: u8,
    pub blue: u8,
}

/// Black: every channel zero.
pub open spec fn black() -> Color {
    Color { red: 0, green: 0, blue: 0 }
}

impl Color {
    /// Black, the colour of interior points.
    pub fn black() -> (c: Color)
        ensures
            c == black(),
    {
        Color { red: 0, green: 0, blue: 0 }
    }
}

/// A colour by hue, saturation and value, in exact terms: the hue is
/// `hue_num / hue_den` degrees, saturation and value are 0 or 1.
#[derive(Clone, Copy, Debug, PartialEq, Eq, Structural)]
pub struct Tone {
    pub hue_num: u64,
    pub hue_den: u32,
    pub saturation: u8,
    pub value: u8,
}

/// The tone of an iteration count. The hue runs once round the wheel as the
/// count runs from zero to `max_iter`; every tone is fully saturated; a count
/// of `max_iter` has value 0, any other has value 1.
pub open spec fn tone_of(count: u32, max_iter: u32) -> Tone {
    Tone {
        hue_num: (360 * count) as u64,
        hue_den: max_iter,
        saturation: 1,
        value: if count == max_iter {
            0
        } else {
            1
        },
    }
}

/// Computes the tone of an iteration count.
pub fn iteration_to_tone(count: u32, max_iter: u32) -> (tone: Tone)
    ensures
        tone == tone_of(count, max_iter),
{
    Tone {
        hue_num: 360 * (count as u64),
        hue_den: max_iter,
        saturation: 1,
        value: if count == max_iter {
            0
        } else {
            1
        },
    }
}

/// Under any cap but zero, count zero has hue zero, full saturation and full
/// value: it is pure red.
pub proof fn lemma_zero_count_is_red(max_iter: u32)
    requires
        max_iter != 0,
    ensures
        tone_of(0, max_iter) == (Tone { hue_num: 0, hue_den: max_iter, saturation: 1, value: 1 }),
{
}

/// A count at the cap has value zero, whatever its hue, and a table gives it
/// black.
pub proof fn lemma_cap_count_is_black(max_iter: u32, table: ColorTable)
    requires
        table@.len() == max_iter,
    ensures
        tone_of(max_iter, max_iter).value == 0,
        table.color(max_iter as nat) == black(),
{
}

/// The colours of a frame, by iteration count: one for each count under the
/// cap, and black from the cap on.
pub struct ColorTable {
    escaped: Vec<Color>,
}

impl View for ColorTable {
    type V = Seq<Color>;

    /// The colours of the counts under the cap, in order.
    closed spec fn view(&self) -> Seq<Color> {
        self.escaped@
    }
}

impl ColorTable {
    /// The colour that the table gives to `count`.
    pub open spec fn color(&self, count: nat) -> Color {
        if count < self@.len() {
            self@[count as int]
        } else {
            black()
        }
    }

    /// A table whose cap is the length of `escaped`, and which gives count
    /// `k` under the cap the colour `escaped[k]`.
    pub fn new(escaped: Vec<Color>) -> (table: ColorTable)
        ensures
            table@ == escaped@,
    {
        ColorTable { escaped }
    }

    /// The number of counts under the cap.
    pub fn cap(&self) -> (cap: usize)
        ensures
            cap == self@.len(),
    {
        self.escaped.len()
    }

    /// The colour of `count`: black for a count that reached the cap.
    pub fn color_of(&self, count: u32) -> (c: Color)
        ensures
            c == self.color(count as nat),
            count >= self@.len() ==> c == black(),
    {
        if (count as usize) < self.escaped.len() {
            self.escaped[count as usize]
        } else {
            Color::black()
        }
    }
}

} // verus!
