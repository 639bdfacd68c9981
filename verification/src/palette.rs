//! The starting color palette.

use vstd::prelude::*;
use crate::color::{Color, ColorSpace};
use crate::fixed::div_floor;

verus! {

/// The palette editor's state: its swatches and which one is selected.
/// Drawing the palette is the host's concern.
#[derive(Clone, Debug)]
pub struct PaletteEditor {
    pub colors: Vec<Color>,
    pub selected_idx: usize,
}

impl PaletteEditor {
    /// The default palette: a six-step gray ramp followed by twelve
    /// hues evenly spaced around the circle, all in HSV.
    pub fn new() -> (r: PaletteEditor)
        ensures
            r.selected_idx == 0,
            r.colors@.len() == 18,
            forall|g: int|
                0 <= g < 6 ==> #[trigger] r.colors@[g] == (Color {
                    space: ColorSpace::Hsv,
                    c0: 0i64,
                    c1: 0i64,
                    c2: (g * 200_000) as i64,
                    c3: 1_000_000i64,
                }),
            forall|k: int|
                0 <= k < 12 ==> #[trigger] r.colors@[6 + k] == (Color {
                    space: ColorSpace::Hsv,
                    c0: (k * 1_000_000 / 12) as i64,
                    c1: 800_000i64,
                    c2: 700_000i64,
                    c3: 1_000_000i64,
                }),
    {
        let mut colors: Vec<Color> = Vec::new();
        let mut g: u64 = 0;
        while g < 6
            invariant
                0 <= g <= 6,
                colors@.len() == g,
                forall|j: int|
                    0 <= j < g ==> #[trigger] colors@[j] == (Color {
                        space: ColorSpace::Hsv,
                        c0: 0i64,
                        c1: 0i64,
                        c2: (j * 200_000) as i64,
                        c3: 1_000_000i64,
                    }),
            decreases 6 - g,
        {
            colors.push(Color::from_hsv(0, 0, (g as i64) * 200_000));
            g = g + 1;
        }
        let mut k: u64 = 0;
        while k < 12
            invariant
                0 <= k <= 12,
                colors@.len() == 6 + k,
                forall|j: int|
                    0 <= j < 6 ==> #[trigger] colors@[j] == (Color {
                        space: ColorSpace::Hsv,
                        c0: 0i64,
                        c1: 0i64,
                        c2: (j * 200_000) as i64,
                        c3: 1_000_000i64,
                    }),
                forall|j: int|
                    0 <= j < k ==> #[trigger] colors@[6 + j] == (Color {
                        space: ColorSpace::Hsv,
                        c0: (j * 1_000_000 / 12) as i64,
                        c1: 800_000i64,
                        c2: 700_000i64,
                        c3: 1_000_000i64,
                    }),
            decreases 12 - k,
        {
            let hue: i64 = div_floor((k as i64) * 1_000_000, 12);
            colors.push(Color::from_hsv(hue, 800_000, 700_000));
            k = k + 1;
        }
        PaletteEditor { colors, selected_idx: 0 }
    }
}

} // verus!
