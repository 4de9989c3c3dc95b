//! The style classes of a station card and of the player's buttons.

use vstd::prelude::*;

verus! {

/// The classes every station card has.
pub open spec fn card_base_classes() -> Seq<&'static str> {
    seq![
        "rounded-2xl",
        "shadow-xl",
        "p-6",
        "flex",
        "flex-col",
        "items-center",
        "cursor-pointer",
        "transition-all",
        "border-2",
        "bg-white",
        "hover:shadow-2xl",
        "hover:scale-105",
        "focus:outline-none",
        "focus:ring-2",
        "focus:ring-red-400",
    ]
}

/// The classes of a station card, marked where the station is selected.
pub open spec fn card_classes(is_selected: bool) -> Seq<&'static str> {
    if is_selected {
        card_base_classes() + seq!["border-red-600", "bg-red-50", "scale-105", "ring-2", "ring-red-200"]
    } else {
        card_base_classes() + seq!["border-gray-200"]
    }
}

/// The classes every station button has.
pub open spec fn station_button_base_classes() -> Seq<&'static str> {
    seq![
        "mt-2",
        "px-4",
        "py-2",
        "rounded-full",
        "font-bold",
        "text-white",
        "transition-colors",
        "focus:outline-none",
        "focus:ring-2",
        "focus:ring-red-400",
        "shadow",
    ]
}

/// The classes of a station button: solid red for the station that is
/// selected and playing, light red with a hover otherwise.
pub open spec fn station_button_classes(is_selected: bool, is_playing: bool) -> Seq<&'static str> {
    if is_selected && is_playing {
        station_button_base_classes().push("bg-red-600")
    } else {
        station_button_base_classes() + seq!["bg-red-400", "hover:bg-red-600"]
    }
}

/// The classes every play button has.
pub open spec fn play_button_base_classes() -> Seq<&'static str> {
    seq!["ml-4", "p-3", "rounded-full", "focus:outline-none", "focus:ring-2", "focus:ring-red-400", "shadow"]
}

/// The classes of the play button, tinted while the player plays.
pub open spec fn play_button_classes(is_playing: bool) -> Seq<&'static str> {
    if is_playing {
        play_button_base_classes().push("bg-red-100")
    } else {
        play_button_base_classes() + seq!["bg-gray-200", "hover:bg-red-100"]
    }
}

/// The classes of a station card.
pub fn radio_card_classes(is_selected: bool) -> (res: Vec<&'static str>)
    ensures
        res@ == card_classes(is_selected),
{
    let mut classes = vec![
        "rounded-2xl",
        "shadow-xl",
        "p-6",
        "flex",
        "flex-col",
        "items-center",
        "cursor-pointer",
        "transition-all",
        "border-2",
        "bg-white",
        "hover:shadow-2xl",
        "hover:scale-105",
        "focus:outline-none",
        "focus:ring-2",
        "focus:ring-red-400",
    ];
    if is_selected {
        classes.push("border-red-600");
        classes.push("bg-red-50");
        classes.push("scale-105");
        classes.push("ring-2");
        classes.push("ring-red-200");
    } else {
        classes.push("border-gray-200");
    }
    assert(classes@ =~= card_classes(is_selected));
    classes
}

/// The classes of a station button.
pub fn radio_btn_classes(is_selected: bool, is_playing: bool) -> (res: Vec<&'static str>)
    ensures
        res@ == station_button_classes(is_selected, is_playing),
{
    let mut classes = vec![
        "mt-2",
        "px-4",
        "py-2",
        "rounded-full",
        "font-bold",
        "text-white",
        "transition-colors",
        "focus:outline-none",
        "focus:ring-2",
        "focus:ring-red-400",
        "shadow",
    ];
    if is_selected && is_playing {
        classes.push("bg-red-600");
    } else {
        classes.push("bg-red-400");
        classes.push("hover:bg-red-600");
    }
    assert(classes@ =~= station_button_classes(is_selected, is_playing));
    classes
}

/// The classes of the play button.
pub fn play_btn_classes(is_playing: bool) -> (res: Vec<&'static str>)
    ensures
        res@ == play_button_classes(is_playing),
{
    let mut classes = vec![
        "ml-4",
        "p-3",
        "rounded-full",
        "focus:outline-none",
        "focus:ring-2",
        "focus:ring-red-400",
        "shadow",
    ];
    if is_playing {
        classes.push("bg-red-100");
    } else {
        classes.push("bg-gray-200");
        classes.push("hover:bg-red-100");
    }
    assert(classes@ =~= play_button_classes(is_playing));
    classes
}

/// Whether selected or not, a card, a station button and the play button
/// begin with the same base classes; selection adds five classes to a card,
/// its absence one.
pub proof fn lemma_classes_share_base(b: bool, c: bool)
    ensures
        card_classes(b).subrange(0, 15) == card_base_classes(),
        card_classes(b).len() == if b {
            20int
        } else {
            16int
        },
        station_button_classes(b, c).subrange(0, 11) == station_button_base_classes(),
        play_button_classes(b).subrange(0, 7) == play_button_base_classes(),
{
    assert(card_classes(b).subrange(0, 15) =~= card_base_classes());
    assert(station_button_classes(b, c).subrange(0, 11) =~= station_button_base_classes());
    assert(play_button_classes(b).subrange(0, 7) =~= play_button_base_classes());
}

/// No class name occurs twice.
pub open spec fn distinct_classes(classes: Seq<&'static str>) -> bool {
    forall|i: int, j: int| 0 <= i < j < classes.len() ==> classes[i]@ != classes[j]@
}

/// Two class names with the same text agree in their length and in their
/// characters at a few places; the proofs below tell names apart by these.
proof fn lemma_same_text_agrees(a: &'static str, b: &'static str)
    requires
        a@ == b@,
    ensures
        a@.len() == b@.len(),
        a@[0] == b@[0],
        a@[1] == b@[1],
        a@[7] == b@[7],
        a@[a@.len() - 1] == b@[b@.len() - 1],
{
}

/// A card names no class twice; it carries "border-red-600" and
/// "ring-red-200" exactly where the station is selected, and
/// "border-gray-200" exactly where it is not.
pub proof fn lemma_card_markers(is_selected: bool)
    ensures
        distinct_classes(card_classes(is_selected)),
        card_classes(is_selected).contains("border-red-600") == is_selected,
        card_classes(is_selected).contains("ring-red-200") == is_selected,
        card_classes(is_selected).contains("border-gray-200") == !is_selected,
{
    reveal_strlit("rounded-2xl");
    reveal_strlit("shadow-xl");
    reveal_strlit("p-6");
    reveal_strlit("flex");
    reveal_strlit("flex-col");
    reveal_strlit("items-center");
    reveal_strlit("cursor-pointer");
    reveal_strlit("transition-all");
    reveal_strlit("border-2");
    reveal_strlit("bg-white");
    reveal_strlit("hover:shadow-2xl");
    reveal_strlit("hover:scale-105");
    reveal_strlit("focus:outline-none");
    reveal_strlit("focus:ring-2");
    reveal_strlit("focus:ring-red-400");
    reveal_strlit("border-red-600");
    reveal_strlit("bg-red-50");
    reveal_strlit("scale-105");
    reveal_strlit("ring-2");
    reveal_strlit("ring-red-200");
    reveal_strlit("border-gray-200");
    let r = card_classes(is_selected);
    assert forall|i: int, j: int| 0 <= i < j < r.len() implies r[i]@ != r[j]@ by {
        if r[i]@ == r[j]@ {
            lemma_same_text_agrees(r[i], r[j]);
        }
    }
    assert forall|i: int| 0 <= i < r.len() && (#[trigger] r[i])@ == "border-gray-200"@ implies !is_selected by {
        lemma_same_text_agrees(r[i], "border-gray-200");
    }
    assert forall|i: int| 0 <= i < r.len() && (#[trigger] r[i])@ == "border-red-600"@ implies is_selected by {
        lemma_same_text_agrees(r[i], "border-red-600");
    }
    assert forall|i: int| 0 <= i < r.len() && (#[trigger] r[i])@ == "ring-red-200"@ implies is_selected by {
        lemma_same_text_agrees(r[i], "ring-red-200");
    }
    if is_selected {
        assert(r[15] == "border-red-600");
        assert(r[19] == "ring-red-200");
    } else {
        assert(r[15] == "border-gray-200");
    }
}

/// A station button depends only on whether the station is selected and
/// playing at once: it is the same with its two flags swapped, the same as
/// with both set to their conjunction, and it carries "bg-red-600" exactly
/// where the station is selected and playing. It names no class twice.
pub proof fn lemma_station_button_marker(is_selected: bool, is_playing: bool)
    ensures
        station_button_classes(is_selected, is_playing) == station_button_classes(
            is_playing,
            is_selected,
        ),
        station_button_classes(is_selected, is_playing) == station_button_classes(
            is_selected && is_playing,
            is_selected && is_playing,
        ),
        station_button_classes(false, true) == station_button_classes(false, false),
        station_button_classes(is_selected, is_playing).contains("bg-red-600") == (is_selected
            && is_playing),
        distinct_classes(station_button_classes(is_selected, is_playing)),
{
    reveal_strlit("mt-2");
    reveal_strlit("px-4");
    reveal_strlit("py-2");
    reveal_strlit("rounded-full");
    reveal_strlit("font-bold");
    reveal_strlit("text-white");
    reveal_strlit("transition-colors");
    reveal_strlit("focus:outline-none");
    reveal_strlit("focus:ring-2");
    reveal_strlit("focus:ring-red-400");
    reveal_strlit("shadow");
    reveal_strlit("bg-red-600");
    reveal_strlit("bg-red-400");
    reveal_strlit("hover:bg-red-600");
    let r = station_button_classes(is_selected, is_playing);
    assert forall|i: int, j: int| 0 <= i < j < r.len() implies r[i]@ != r[j]@ by {
        if r[i]@ == r[j]@ {
            lemma_same_text_agrees(r[i], r[j]);
        }
    }
    assert forall|i: int| 0 <= i < r.len() && (#[trigger] r[i])@ == "bg-red-600"@ implies is_selected
        && is_playing by {
        lemma_same_text_agrees(r[i], "bg-red-600");
    }
    if is_selected && is_playing {
        assert(r[11] == "bg-red-600");
    }
}

/// The play button names no class twice, and carries "bg-red-100" exactly
/// while the player plays.
pub proof fn lemma_play_button_marker(is_playing: bool)
    ensures
        distinct_classes(play_button_classes(is_playing)),
        play_button_classes(is_playing).contains("bg-red-100") == is_playing,
{
    reveal_strlit("ml-4");
    reveal_strlit("p-3");
    reveal_strlit("rounded-full");
    reveal_strlit("focus:outline-none");
    reveal_strlit("focus:ring-2");
    reveal_strlit("focus:ring-red-400");
    reveal_strlit("shadow");
    reveal_strlit("bg-red-100");
    reveal_strlit("bg-gray-200");
    reveal_strlit("hover:bg-red-100");
    let r = play_button_classes(is_playing);
    assert forall|i: int, j: int| 0 <= i < j < r.len() implies r[i]@ != r[j]@ by {
        if r[i]@ == r[j]@ {
            lemma_same_text_agrees(r[i], r[j]);
        }
    }
    assert forall|i: int| 0 <= i < r.len() && (#[trigger] r[i])@ == "bg-red-100"@ implies is_playing by {
        lemma_same_text_agrees(r[i], "bg-red-100");
    }
    if is_playing {
        assert(r[7] == "bg-red-100");
    }
}

} // verus!
