//! Image addresses and the label of a station's button.

use vstd::prelude::*;
use crate::text::{concat, lemma_replace_absent, lemma_replace_first, occurs_at, replace, replace_all};
use crate::types::{Radio, RadioImage};

verus! {

/// The second size of an image: `size2` where given, else `size`.
pub open spec fn second_size(size: &str, size2: Option<&str>) -> Seq<char> {
    match size2 {
        Some(s) => s@,
        None => size@,
    }
}

/// The address of an image of the given sizes: prefix, `size`, `x`,
/// `size2`, suffix.
pub open spec fn sized_image_url(
    prefix: Seq<char>,
    suffix: Seq<char>,
    size: Seq<char>,
    size2: Seq<char>,
) -> Seq<char> {
    prefix + size + "x"@ + size2 + suffix
}

/// A logo address: prefix and suffix joined, with every `/u` in it replaced
/// by `/` size `x` size2 `/u`.
pub open spec fn sized_logo_url(
    prefix: Seq<char>,
    suffix: Seq<char>,
    size: Seq<char>,
    size2: Seq<char>,
) -> Seq<char> {
    replace_all(prefix + suffix, "/u"@, "/"@ + size + "x"@ + size2 + "/u"@)
}

/// The label of a station's button.
pub open spec fn button_text(
    is_selected: bool,
    is_playing: bool,
    selected_radio: Option<usize>,
    current_idx: usize,
) -> &'static str {
    if is_selected && is_playing {
        "Çalıyor"
    } else if !is_playing && selected_radio == Some(current_idx) {
        "Durduruldu"
    } else {
        "Seç & Dinle"
    }
}

/// The address of the image of the song being played, at the given size.
pub fn get_currently_playing_song_image(
    radio_image: RadioImage,
    size: &str,
    size2: Option<&str>,
) -> (res: String)
    ensures
        res@ == sized_image_url(
            radio_image.prefix@,
            radio_image.suffix@,
            size@,
            second_size(size, size2),
        ),
{
    let size2 = match size2 {
        Some(s) => s,
        None => size,
    };
    let a = concat(radio_image.prefix.as_str(), size);
    let b = concat(a.as_str(), "x");
    let c = concat(b.as_str(), size2);
    let d = concat(c.as_str(), radio_image.suffix.as_str());
    d
}

/// The address of a station's logo at the given size.
pub fn get_logo_url(radio: &Radio, size: &str, size2: Option<&str>) -> (res: String)
    ensures
        res@ == sized_logo_url(
            radio.image.prefix@,
            radio.image.suffix@,
            size@,
            second_size(size, size2),
        ),
{
    let size2 = match size2 {
        Some(s) => s,
        None => size,
    };
    let joined = concat(radio.image.prefix.as_str(), radio.image.suffix.as_str());
    let a = concat("/", size);
    let b = concat(a.as_str(), "x");
    let c = concat(b.as_str(), size2);
    let rep = concat(c.as_str(), "/u");
    proof {
        reveal_strlit("/u");
    }
    replace(joined.as_str(), "/u", rep.as_str())
}

/// The label of a station's button: "Çalıyor" for the selected station while
/// it plays, "Durduruldu" for the selected station while it is paused, else
/// "Seç & Dinle".
pub fn get_button_text(
    is_selected: bool,
    is_playing: bool,
    selected_radio: Option<usize>,
    current_idx: usize,
) -> (res: &'static str)
    ensures
        res == button_text(is_selected, is_playing, selected_radio, current_idx),
{
    if is_selected && is_playing {
        "Çalıyor"
    } else if !is_playing && selected_radio == Some(current_idx) {
        "Durduruldu"
    } else {
        "Seç & Dinle"
    }
}

/// Where no second size is given, the first stands for it: a logo or song
/// image asked for without `size2` is the one asked for with `size2` equal
/// to `size`.
pub proof fn lemma_second_size_defaults(
    prefix: Seq<char>,
    suffix: Seq<char>,
    size: &str,
)
    ensures
        sized_logo_url(prefix, suffix, size@, second_size(size, None)) == sized_logo_url(
            prefix,
            suffix,
            size@,
            second_size(size, Some(size)),
        ),
        sized_image_url(prefix, suffix, size@, second_size(size, None)) == sized_image_url(
            prefix,
            suffix,
            size@,
            second_size(size, Some(size)),
        ),
{
}

/// A logo address in which `/u` does not occur takes no size: it is its
/// prefix and suffix joined.
pub proof fn lemma_logo_without_marker(
    prefix: Seq<char>,
    suffix: Seq<char>,
    size: Seq<char>,
    size2: Seq<char>,
)
    requires
        forall|i: int| !occurs_at(prefix + suffix, "/u"@, i),
    ensures
        sized_logo_url(prefix, suffix, size, size2) == prefix + suffix,
{
    lemma_replace_absent(prefix + suffix, "/u"@, "/"@ + size + "x"@ + size2 + "/u"@);
}

/// The three labels of a station button are told apart by the state: the
/// selected playing station reads "Çalıyor", a paused selected one
/// "Durduruldu", any other "Seç & Dinle".
pub proof fn lemma_button_text_cases(selected_radio: Option<usize>, idx: usize, is_playing: bool)
    ensures
        button_text(selected_radio == Some(idx), is_playing, selected_radio, idx) == if is_playing
            && selected_radio == Some(idx) {
            "Çalıyor"
        } else if !is_playing && selected_radio == Some(idx) {
            "Durduruldu"
        } else {
            "Seç & Dinle"
        },
{
}

/// A song image address is the prefix, the first size, the letter 'x', the
/// second size and the suffix, one after the other.
pub proof fn lemma_image_url_layout(
    prefix: Seq<char>,
    suffix: Seq<char>,
    size: Seq<char>,
    size2: Seq<char>,
)
    ensures
        ({
            let u = sized_image_url(prefix, suffix, size, size2);
            let k: int = (prefix.len() + size.len()) as int;
            &&& u.len() == k + 1 + size2.len() + suffix.len()
            &&& u.subrange(0, prefix.len() as int) == prefix
            &&& u.subrange(prefix.len() as int, k) == size
            &&& u[k] == 'x'
            &&& u.subrange(k + 1, k + 1 + size2.len()) == size2
            &&& u.subrange(k + 1 + size2.len(), u.len() as int) == suffix
        }),
{
    reveal_strlit("x");
    let u = sized_image_url(prefix, suffix, size, size2);
    let k: int = (prefix.len() + size.len()) as int;
    assert(u.subrange(0, prefix.len() as int) =~= prefix);
    assert(u.subrange(prefix.len() as int, k) =~= size);
    assert(u.subrange(k + 1, k + 1 + size2.len()) =~= size2);
    assert(u.subrange(k + 1 + size2.len(), u.len() as int) =~= suffix);
}

/// In a logo address the first "/u" becomes "/", the first size, 'x', the
/// second size and "/u"; the text before it is kept and the text after it is
/// treated the same way.
pub proof fn lemma_logo_first_marker(
    before: Seq<char>,
    after: Seq<char>,
    prefix: Seq<char>,
    suffix: Seq<char>,
    size: Seq<char>,
    size2: Seq<char>,
)
    requires
        prefix + suffix == before + "/u"@ + after,
        forall|i: int| 0 <= i < before.len() ==> !occurs_at(prefix + suffix, "/u"@, i),
    ensures
        sized_logo_url(prefix, suffix, size, size2) == before + ("/"@ + size + "x"@ + size2
            + "/u"@) + replace_all(after, "/u"@, "/"@ + size + "x"@ + size2 + "/u"@),
{
    reveal_strlit("/u");
    lemma_replace_first(before, "/u"@, after, "/"@ + size + "x"@ + size2 + "/u"@);
}

} // verus!
