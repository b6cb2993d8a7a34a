//! Choosing among the video modes that a monitor offers.
//!
//! The modes come in the order in which the monitor lists them. A choice is
//! the mode that a stable sort by preference would put first: no mode is
//! preferred to it, and it is preferred to every mode listed before it.

use vstd::prelude::*;

verus! {

/// A display mode that a monitor offers: its size in physical pixels and its
/// refresh rate.
#[derive(Clone, Copy, Debug, PartialEq, Eq, Structural)]
pub struct VideoMode {
    pub width: u32,
    pub height: u32,
    pub refresh_rate_millihertz: u32,
}

/// What a video mode is chosen for.
#[derive(Clone, Copy, Debug, PartialEq, Eq, Structural)]
pub enum Preference {
    /// The largest mode: width first, then height, then refresh rate.
    Largest,
    /// The mode closest to a wanted size: distance in width first, then
    /// distance in height, then the higher refresh rate.
    Closest { width: u32, height: u32 },
}

/// The distance between two lengths.
pub open spec fn distance(a: u32, b: u32) -> int {
    if a > b {
        a - b
    } else {
        b - a
    }
}

impl Preference {
    /// `a` is strictly preferred to `b`.
    pub open spec fn prefers(self, a: VideoMode, b: VideoMode) -> bool {
        match self {
            Preference::Largest => {
                ||| a.width > b.width
                ||| a.width == b.width && a.height > b.height
                ||| a.width == b.width && a.height == b.height && a.refresh_rate_millihertz
                    > b.refresh_rate_millihertz
            },
            Preference::Closest { width, height } => {
                ||| distance(a.width, width) < distance(b.width, width)
                ||| distance(a.width, width) == distance(b.width, width) && distance(
                    a.height,
                    height,
                ) < distance(b.height, height)
                ||| distance(a.width, width) == distance(b.width, width) && distance(
                    a.height,
                    height,
                ) == distance(b.height, height) && a.refresh_rate_millihertz
                    > b.refresh_rate_millihertz
            },
        }
    }

    /// Neither of `a` and `b` is preferred to the other.
    pub open spec fn ties(self, a: VideoMode, b: VideoMode) -> bool {
        !self.prefers(a, b) && !self.prefers(b, a)
    }
}

/// `index` is the choice among `modes`: no mode is preferred to the one at
/// `index`, and that one is preferred to every mode listed before it.
pub open spec fn is_first_choice(modes: Seq<VideoMode>, preference: Preference, index: int) -> bool {
    &&& 0 <= index < modes.len()
    &&& forall|j: int| 0 <= j < modes.len() ==> !preference.prefers(#[trigger] modes[j], modes[index])
    &&& forall|j: int| 0 <= j < index ==> preference.prefers(modes[index], #[trigger] modes[j])
}

/// The distance between two lengths.
fn abs_diff(a: u32, b: u32) -> (d: u32)
    ensures
        d == distance(a, b),
{
    if a > b {
        return a - b;
    }
    b - a
}

/// Whether `a` is strictly preferred to `b`.
fn prefers(preference: Preference, a: &VideoMode, b: &VideoMode) -> (preferred: bool)
    ensures
        preferred == preference.prefers(*a, *b),
{
    match preference {
        Preference::Largest => {
            if a.width != b.width {
                a.width > b.width
            } else if a.height != b.height {
                a.height > b.height
            } else {
                a.refresh_rate_millihertz > b.refresh_rate_millihertz
            }
        },
        Preference::Closest { width, height } => {
            let a_width: u32 = abs_diff(a.width, width);
            let b_width: u32 = abs_diff(b.width, width);
            let a_height: u32 = abs_diff(a.height, height);
            let b_height: u32 = abs_diff(b.height, height);
            if a_width != b_width {
                a_width < b_width
            } else if a_height != b_height {
                a_height < b_height
            } else {
                a.refresh_rate_millihertz > b.refresh_rate_millihertz
            }
        },
    }
}

/// The index of the choice among `modes`.
fn first_choice(modes: &[VideoMode], preference: Preference) -> (best: usize)
    requires
        modes@.len() > 0,
    ensures
        is_first_choice(modes@, preference, best as int),
{
    let mut best: usize = 0;
    let mut next: usize = 1;
    while next < modes.len()
        invariant
            1 <= next <= modes@.len(),
            best < next,
            forall|j: int| 0 <= j < next ==> !preference.prefers(#[trigger] modes@[j], modes@[best as int]),
            forall|j: int| 0 <= j < best ==> preference.prefers(modes@[best as int], #[trigger] modes@[j]),
        decreases modes@.len() - next,
    {
        if prefers(preference, &modes[next], &modes[best]) {
            best = next;
        }
        next = next + 1;
    }
    best
}

/// Gets the "best" video mode which fits the given dimensions: the index in
/// `modes` of the mode whose width is closest to `width`, among those the one
/// whose height is closest to `height`, among those the one with the highest
/// refresh rate, and among those the one listed first.
pub fn get_fitting_videomode(modes: &[VideoMode], width: u32, height: u32) -> (best: usize)
    requires
        modes@.len() > 0,
    ensures
        is_first_choice(modes@, Preference::Closest { width, height }, best as int),
{
    first_choice(modes, Preference::Closest { width, height })
}

/// Gets the "best" video mode of a monitor: the index in `modes` of the widest
/// mode, among those the tallest, among those the one with the highest refresh
/// rate, and among those the one listed first.
pub fn get_best_videomode(modes: &[VideoMode]) -> (best: usize)
    requires
        modes@.len() > 0,
    ensures
        is_first_choice(modes@, Preference::Largest, best as int),
{
    first_choice(modes, Preference::Largest)
}

/// `order` arranges the indices of `modes` as a stable sort by preference
/// does: each index occurs in it, no mode stands before one that is
/// preferred to it, and modes that tie keep the order of the list.
pub open spec fn is_stable_sort(modes: Seq<VideoMode>, preference: Preference, order: Seq<int>) -> bool {
    &&& order.len() == modes.len()
    &&& forall|k: int| 0 <= k < order.len() ==> 0 <= #[trigger] order[k] < modes.len()
    &&& forall|j: int| 0 <= j < modes.len() ==> #[trigger] order.contains(j)
    &&& forall|a: int, b: int|
        0 <= a < b < order.len() ==> !preference.prefers(
            modes[#[trigger] order[b]],
            modes[#[trigger] order[a]],
        )
    &&& forall|a: int, b: int|
        0 <= a < b < order.len() && preference.ties(
            modes[#[trigger] order[a]],
            modes[#[trigger] order[b]],
        ) ==> order[a] < order[b]
}

/// A list with at least one mode has a choice.
pub proof fn lemma_first_choice_exists(modes: Seq<VideoMode>, preference: Preference)
    requires
        modes.len() > 0,
    ensures
        exists|index: int| is_first_choice(modes, preference, index),
    decreases modes.len(),
{
    if modes.len() == 1 {
        assert(is_first_choice(modes, preference, 0));
    } else {
        let front = modes.drop_last();
        let last = modes.len() - 1;
        lemma_first_choice_exists(front, preference);
        let before = choose|index: int| is_first_choice(front, preference, index);
        assert forall|j: int| 0 <= j < last implies modes[j] == front[j] by {}
        if preference.prefers(modes[last], modes[before]) {
            assert forall|j: int| 0 <= j < modes.len() implies !preference.prefers(
                #[trigger] modes[j],
                modes[last],
            ) by {
                if j < last {
                    assert(!preference.prefers(front[j], front[before]));
                }
            }
            assert forall|j: int| 0 <= j < last implies preference.prefers(
                modes[last],
                #[trigger] modes[j],
            ) by {
                assert(!preference.prefers(front[j], front[before]));
                if j < before {
                    assert(preference.prefers(front[before], front[j]));
                }
            }
            assert(is_first_choice(modes, preference, last));
        } else {
            assert forall|j: int| 0 <= j < modes.len() implies !preference.prefers(
                #[trigger] modes[j],
                modes[before],
            ) by {
                if j < last {
                    assert(!preference.prefers(front[j], front[before]));
                }
            }
            assert forall|j: int| 0 <= j < before implies preference.prefers(
                modes[before],
                #[trigger] modes[j],
            ) by {
                assert(preference.prefers(front[before], front[j]));
            }
            assert(is_first_choice(modes, preference, before));
        }
    }
}

/// A list of modes has at most one choice.
pub proof fn lemma_first_choice_is_unique(
    modes: Seq<VideoMode>,
    preference: Preference,
    first: int,
    second: int,
)
    requires
        is_first_choice(modes, preference, first),
        is_first_choice(modes, preference, second),
    ensures
        first == second,
{
    if first < second {
        assert(preference.prefers(modes[second], modes[first]));
        assert(!preference.prefers(modes[second], modes[first]));
    } else if second < first {
        assert(preference.prefers(modes[first], modes[second]));
        assert(!preference.prefers(modes[first], modes[second]));
    }
}

/// The choice is the mode that a stable sort by preference puts first.
pub proof fn lemma_first_choice_heads_stable_sort(
    modes: Seq<VideoMode>,
    preference: Preference,
    order: Seq<int>,
    index: int,
)
    requires
        is_stable_sort(modes, preference, order),
        is_first_choice(modes, preference, index),
    ensures
        order[0] == index,
{
    let head = order[0];
    assert(0 <= head < modes.len());
    assert forall|j: int| 0 <= j < modes.len() implies !preference.prefers(
        #[trigger] modes[j],
        modes[head],
    ) by {
        assert(order.contains(j));
        let k = choose|k: int| 0 <= k < order.len() && #[trigger] order[k] == j;
        if k > 0 {
            assert(!preference.prefers(modes[order[k]], modes[order[0]]));
        }
    }
    assert forall|j: int| 0 <= j < head implies preference.prefers(
        modes[head],
        #[trigger] modes[j],
    ) by {
        assert(order.contains(j));
        let k = choose|k: int| 0 <= k < order.len() && #[trigger] order[k] == j;
        assert(k > 0);
        assert(!preference.prefers(modes[order[k]], modes[order[0]]));
        if !preference.prefers(modes[head], modes[j]) {
            assert(preference.ties(modes[order[0]], modes[order[k]]));
            assert(order[0] < order[k]);
        }
    }
    lemma_first_choice_is_unique(modes, preference, head, index);
}

/// The best mode is as wide as any mode; it is as tall as any mode of its
/// width; and it refreshes as fast as any mode of its size.
pub proof fn lemma_best_is_largest(modes: Seq<VideoMode>, best: int, other: int)
    requires
        is_first_choice(modes, Preference::Largest, best),
        0 <= other < modes.len(),
    ensures
        modes[other].width <= modes[best].width,
        modes[other].width == modes[best].width ==> modes[other].height <= modes[best].height,
        modes[other].width == modes[best].width && modes[other].height == modes[best].height
            ==> modes[other].refresh_rate_millihertz <= modes[best].refresh_rate_millihertz,
{
    assert(!Preference::Largest.prefers(modes[other], modes[best]));
}

/// Where some mode has exactly the wanted size, the fitting mode has it too,
/// and no mode of that size refreshes faster.
pub proof fn lemma_fitting_takes_exact_size(
    modes: Seq<VideoMode>,
    width: u32,
    height: u32,
    best: int,
    exact: int,
)
    requires
        is_first_choice(modes, Preference::Closest { width, height }, best),
        0 <= exact < modes.len(),
        modes[exact].width == width,
        modes[exact].height == height,
    ensures
        modes[best].width == width,
        modes[best].height == height,
        modes[exact].refresh_rate_millihertz <= modes[best].refresh_rate_millihertz,
{
    assert(!(Preference::Closest { width, height }).prefers(modes[exact], modes[best]));
}

} // verus!
