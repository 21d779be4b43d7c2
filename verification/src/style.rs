//! Styled regions: the pieces into which a highlighter cuts a code text, each
//! with the look it is to have.

use vstd::prelude::*;
use vstd::string::*;

verus! {

/// A colour with its transparency, each channel from 0 to 255.
#[derive(Clone, Copy, Debug, PartialEq, Eq, Structural)]
pub struct Color {
    /// Red.
    pub r: u8,
    /// Green.
    pub g: u8,
    /// Blue.
    pub b: u8,
    /// Opacity; 255 is opaque.
    pub a: u8,
}

impl Color {
    /// Whether red, green and blue are all 0.
    pub open spec fn is_black(self) -> bool {
        self.r == 0 && self.g == 0 && self.b == 0
    }

    /// Tells whether the colour is pure black, whatever its opacity.
    pub fn black(&self) -> (b: bool)
        ensures
            b == self.is_black(),
    {
        self.r == 0 && self.g == 0 && self.b == 0
    }
}

/// The look of one region. The renderers for typesetting read the foreground
/// and the three font attributes; the background and the opacity are kept for
/// the web colourizer, which compares whole styles.
#[derive(Clone, Copy, Debug, PartialEq, Eq, Structural)]
pub struct StyleAttributes {
    /// The colour of the text.
    pub foreground: Color,
    /// The colour behind the text.
    pub background: Color,
    /// Bold face.
    pub bold: bool,
    /// Italic face.
    pub italic: bool,
    /// Underlined.
    pub underline: bool,
}

/// A stretch of code text with one look.
#[derive(Clone, Debug)]
pub struct StyledRegion {
    /// The text of the region.
    pub text: String,
    /// Its look.
    pub style: StyleAttributes,
}

/// A styled region as a plain value.
pub struct RegionView {
    /// The text of the region.
    pub text: Seq<char>,
    /// Its look.
    pub style: StyleAttributes,
}

impl View for StyledRegion {
    type V = RegionView;

    open spec fn view(&self) -> RegionView {
        RegionView { text: self.text@, style: self.style }
    }
}

impl DeepView for StyledRegion {
    type V = RegionView;

    open spec fn deep_view(&self) -> RegionView {
        self@
    }
}

/// The texts of the regions, in order, as one text.
pub open spec fn joined_text(regions: Seq<RegionView>) -> Seq<char>
    decreases regions.len(),
{
    if regions.len() == 0 {
        Seq::empty()
    } else {
        regions[0].text + joined_text(regions.drop_first())
    }
}

/// Whether no region has an empty text.
pub open spec fn all_nonempty(regions: Seq<RegionView>) -> bool {
    forall|i: int| 0 <= i < regions.len() ==> (#[trigger] regions[i]).text.len() > 0
}

/// Whether the regions cut `code` into pieces and nothing else: their texts,
/// in order, give `code` back, and none is empty unless `code` is.
pub open spec fn content_preserving(regions: Seq<RegionView>, code: Seq<char>) -> bool {
    joined_text(regions) == code && (code.len() > 0 ==> all_nonempty(regions))
}

/// The texts of the regions, in order, as one string.
pub fn join_regions(regions: &Vec<StyledRegion>) -> (r: String)
    ensures
        r@ == joined_text(regions.deep_view()),
{
    let ghost all = regions.deep_view();
    let mut out = String::new();
    let mut i: usize = 0;
    proof {
        assert(all.skip(0) =~= all);
    }
    while i < regions.len()
        invariant
            i <= regions.len(),
            all == regions.deep_view(),
            out@ + joined_text(all.skip(i as int)) == joined_text(all),
        decreases regions.len() - i,
    {
        proof {
            assert(all.skip(i as int).drop_first() =~= all.skip(i as int + 1));
            assert(all.skip(i as int)[0] == regions[i as int]@);
        }
        out.append(regions[i].text.as_str());
        i += 1;
    }
    proof {
        assert(all.skip(i as int) =~= Seq::<RegionView>::empty());
    }
    out
}

/// Tells whether no region has an empty text.
pub fn regions_nonempty(regions: &Vec<StyledRegion>) -> (b: bool)
    ensures
        b == all_nonempty(regions.deep_view()),
{
    let ghost all = regions.deep_view();
    let mut i: usize = 0;
    while i < regions.len()
        invariant
            i <= regions.len(),
            all == regions.deep_view(),
            forall|j: int| 0 <= j < i ==> (#[trigger] all[j]).text.len() > 0,
        decreases regions.len() - i,
    {
        if regions[i].text.as_str().is_empty() {
            assert(all[i as int].text.len() == 0);
            return false;
        }
        assert(all[i as int] == regions[i as int]@);
        i += 1;
    }
    true
}

/// Tells whether the regions cut `code` into pieces and nothing else.
pub fn preserves_content(regions: &Vec<StyledRegion>, code: &str) -> (b: bool)
    ensures
        b == content_preserving(regions.deep_view(), code@),
{
    let joined = join_regions(regions);
    let whole = code.to_owned();
    if joined != whole {
        return false;
    }
    code.is_empty() || regions_nonempty(regions)
}

} // verus!
