//! Icons: an original image and images at several resolutions, which the
//! API writes as the fields `image_<resolution>` of the icon.

use vstd::prelude::*;
use vstd::string::*;

use crate::decimal::{append_u64, lemma_parse_decimal_round_trip, nat_to_decimal, parse_u32, std_parse_int};

verus! {

/// The images of an icon by resolution, in the order the API gave them.
#[derive(Debug, Clone, PartialEq)]
pub struct SlackIconImages {
    pub resolutions: Vec<(u32, String)>,
}

/// An icon.
#[derive(Debug, Clone, PartialEq)]
pub struct SlackIcon {
    pub image_original: Option<String>,
    pub image_default: Option<bool>,
    pub images: Option<SlackIconImages>,
}

impl SlackIcon {
    pub fn new() -> (r: Self)
        ensures
            r.image_original is None,
            r.image_default is None,
            r.images is None,
    {
        SlackIcon { image_original: None, image_default: None, images: None }
    }
}

/// The prefix of the fields that hold images.
pub open spec fn image_prefix() -> Seq<char> {
    seq!['i', 'm', 'a', 'g', 'e', '_']
}

/// The field name of the image at a resolution: `image_<resolution>`.
pub open spec fn image_key(resolution: nat) -> Seq<char> {
    image_prefix() + nat_to_decimal(resolution)
}

/// The text after `image_` in a field name that splits at `_` into exactly
/// two parts, `image` and that text.
pub open spec fn image_key_suffix(key: Seq<char>) -> Option<Seq<char>> {
    if key.len() >= 6 && key.take(6) == image_prefix() && (forall|i: int| 6 <= i < key.len() ==> key[i] != '_') {
        Some(key.skip(6))
    } else {
        None
    }
}

/// How a field of an icon reads: `None` for a field that is not an image
/// at a resolution, `Some(Some(r))` for the image at resolution `r`, and
/// `Some(None)` for a field `image_<text>` whose text is not a `u32`.
pub open spec fn image_key_reading(key: Seq<char>) -> Option<Option<u32>> {
    match image_key_suffix(key) {
        None => None,
        Some(suffix) => match std_parse_int(suffix, false, 0, u32::MAX as int) {
            Some(r) => Some(Some(r as u32)),
            None => Some(None),
        },
    }
}

/// The fields that an icon's images are written as, in order.
pub open spec fn image_entries(resolutions: Seq<(u32, String)>) -> Seq<(Seq<char>, Seq<char>)> {
    resolutions.map_values(|e: (u32, String)| (image_key(e.0 as nat), e.1@))
}

/// Whether `key` begins with `image_`.
fn has_image_prefix(key: &str) -> (r: bool)
    ensures
        r == (key@.len() >= 6 && key@.take(6) == image_prefix()),
{
    if key.unicode_len() < 6 {
        return false;
    }
    let r = key.get_char(0) == 'i' && key.get_char(1) == 'm' && key.get_char(2) == 'a'
        && key.get_char(3) == 'g' && key.get_char(4) == 'e' && key.get_char(5) == '_';
    proof {
        if r {
            assert(key@.take(6) =~= image_prefix());
        } else if key@.take(6) == image_prefix() {
            assert(key@.take(6)[0] == 'i');
            assert(key@.take(6)[1] == 'm');
            assert(key@.take(6)[2] == 'a');
            assert(key@.take(6)[3] == 'g');
            assert(key@.take(6)[4] == 'e');
            assert(key@.take(6)[5] == '_');
        }
    }
    r
}

impl SlackIconImages {
    pub fn new(resolutions: Vec<(u32, String)>) -> (r: Self)
        ensures
            r.resolutions@ == resolutions@,
    {
        SlackIconImages { resolutions }
    }

    /// The field name of the image at a resolution.
    pub fn image_key(resolution: u32) -> (r: String)
        ensures
            r@ == image_key(resolution as nat),
    {
        let mut key = String::from_str("image_");
        append_u64(&mut key, resolution as u64);
        proof {
            reveal_strlit("image_");
            assert(key@ =~= image_key(resolution as nat));
        }
        key
    }

    /// How a field name of an icon reads (see [`image_key_reading`]).
    pub fn read_image_key(key: &str) -> (r: Option<Option<u32>>)
        ensures
            r == image_key_reading(key@),
    {
        if !has_image_prefix(key) {
            return None;
        }
        let n = key.unicode_len();
        let mut i: usize = 6;
        let mut two_parts = true;
        while i < n
            invariant
                n == key@.len(),
                6 <= i <= n,
                two_parts == (forall|j: int| 6 <= j < i ==> key@[j] != '_'),
            decreases n - i,
        {
            if key.get_char(i) == '_' {
                two_parts = false;
            }
            i = i + 1;
        }
        if !two_parts {
            return None;
        }
        let suffix = key.substring_char(6, n);
        proof {
            assert(key@.subrange(6, n as int) =~= key@.skip(6));
        }
        match parse_u32(suffix) {
            Some(resolution) => Some(Some(resolution)),
            None => Some(None),
        }
    }

    /// The fields that the images are written as, in order; `None` when there
    /// are no images (the icon then has no image fields).
    pub fn to_image_entries(&self) -> (r: Option<Vec<(String, String)>>)
        ensures
            self.resolutions@.len() == 0 ==> r is None,
            self.resolutions@.len() > 0 ==> (r matches Some(entries)
                && entries@.map_values(|e: (String, String)| (e.0@, e.1@)) == image_entries(self.resolutions@)),
    {
        let n = self.resolutions.len();
        if n == 0 {
            return None;
        }
        let mut entries: Vec<(String, String)> = Vec::new();
        let mut i: usize = 0;
        while i < n
            invariant
                n == self.resolutions@.len(),
                i <= n,
                entries@.map_values(|e: (String, String)| (e.0@, e.1@))
                    == image_entries(self.resolutions@).take(i as int),
            decreases n - i,
        {
            let resolution = self.resolutions[i].0;
            let link = self.resolutions[i].1.clone();
            let key = Self::image_key(resolution);
            let ghost before = entries@;
            entries.push((key, link));
            proof {
                let f = |e: (String, String)| (e.0@, e.1@);
                assert(entries@ == before.push((key, link)));
                assert(entries@.map_values(f) =~= before.map_values(f).push((key@, link@)));
                assert(image_entries(self.resolutions@)[i as int] == (image_key(resolution as nat), self.resolutions@[i as int].1@));
                assert(image_entries(self.resolutions@).take(i + 1)
                    =~= image_entries(self.resolutions@).take(i as int).push(image_entries(self.resolutions@)[i as int]));
                assert(entries@.map_values(f) =~= image_entries(self.resolutions@).take(i + 1));
            }
            i = i + 1;
        }
        proof {
            assert(image_entries(self.resolutions@).take(n as int) =~= image_entries(self.resolutions@));
        }
        Some(entries)
    }
}

/// The field of the image at a resolution reads back as that resolution.
pub proof fn lemma_image_key_round_trip(resolution: u32)
    ensures
        image_key_reading(image_key(resolution as nat)) == Some(Some(resolution)),
{
    let key = image_key(resolution as nat);
    crate::decimal::lemma_nat_to_decimal_digits(resolution as nat);
    assert(key.take(6) =~= image_prefix());
    assert(key.skip(6) =~= nat_to_decimal(resolution as nat));
    assert forall|i: int| 6 <= i < key.len() implies key[i] != '_' by {
        assert(key[i] == nat_to_decimal(resolution as nat)[i - 6]);
        assert(crate::decimal::is_digit(nat_to_decimal(resolution as nat)[i - 6]));
    }
    lemma_parse_decimal_round_trip(resolution as nat, u32::MAX as int);
}

/// What reading the fields of an icon gives, in order: the images at the
/// fields `image_<resolution>`, the other fields left aside; `None` where a
/// field `image_<text>` has a text that is no resolution.
pub open spec fn read_image_entries(entries: Seq<(Seq<char>, Seq<char>)>) -> Option<Seq<(u32, Seq<char>)>>
    decreases entries.len(),
{
    if entries.len() == 0 {
        Some(Seq::empty())
    } else {
        match read_image_entries(entries.drop_last()) {
            None => None,
            Some(images) => match image_key_reading(entries.last().0) {
                None => Some(images),
                Some(None) => None,
                Some(Some(resolution)) => Some(images.push((resolution, entries.last().1))),
            },
        }
    }
}

/// The images of an icon as resolutions and texts.
pub open spec fn resolutions_view(resolutions: Seq<(u32, String)>) -> Seq<(u32, Seq<char>)> {
    resolutions.map_values(|e: (u32, String)| (e.0, e.1@))
}

/// Reading back the fields that an icon's images are written as gives the
/// same images in the same order.
pub proof fn lemma_image_entries_round_trip(resolutions: Seq<(u32, String)>)
    ensures
        read_image_entries(image_entries(resolutions)) == Some(resolutions_view(resolutions)),
    decreases resolutions.len(),
{
    if resolutions.len() > 0 {
        let rest = resolutions.drop_last();
        lemma_image_entries_round_trip(rest);
        assert(image_entries(resolutions).drop_last() =~= image_entries(rest));
        lemma_image_key_round_trip(resolutions.last().0);
        assert(resolutions_view(resolutions) =~= resolutions_view(rest).push(
            (resolutions.last().0, resolutions.last().1@),
        ));
    } else {
        assert(resolutions_view(resolutions) =~= Seq::<(u32, Seq<char>)>::empty());
    }
}

} // verus!
