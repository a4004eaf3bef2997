//! Choosing a display that is not the primary one.
//!
//! The host's windowing system lists the displays and may name one of them as
//! primary. A display is known here by an opaque identifier and by the name
//! that the host reports for it, which may be absent. Displays are told apart
//! by name alone: one that shares the primary's name is taken for the primary,
//! whatever its identifier. Where two devices report the same name this skips
//! a display that could have served; callers that have a stable identifier
//! should not rely on this selection for such hosts.

use vstd::prelude::*;

verus! {

/// A display device as the host describes it.
#[derive(Debug, Clone, PartialEq, Eq)]
pub struct DisplayDescriptor {
    /// Identifier under which the caller finds the device again. It is
    /// carried along and never interpreted.
    pub id: u64,
    /// Human-readable name, absent where the host reports none.
    pub name: Option<String>,
}

/// What a [`DisplayDescriptor`] stands for: its identifier, and its name as a
/// sequence of characters.
pub struct DisplayView {
    pub id: u64,
    pub name: Option<Seq<char>>,
}

impl View for DisplayDescriptor {
    type V = DisplayView;

    open spec fn view(&self) -> DisplayView {
        DisplayView { id: self.id, name: name_view(&self.name) }
    }
}

/// A name as a sequence of characters.
pub open spec fn name_view(name: &Option<String>) -> Option<Seq<char>> {
    match name {
        Some(name) => Some(name@),
        None => None,
    }
}

/// What an optional descriptor stands for.
pub open spec fn option_view(display: Option<&DisplayDescriptor>) -> Option<DisplayView> {
    match display {
        Some(display) => Some(display@),
        None => None,
    }
}

/// What the displays of `all` stand for, in the order of `all`.
pub open spec fn views(all: Seq<DisplayDescriptor>) -> Seq<DisplayView> {
    Seq::new(all.len(), |i: int| all[i]@)
}

/// Whether `i` is the position of the first display of `all` whose name is
/// not `name`.
pub open spec fn is_first_other(all: Seq<DisplayView>, name: Option<Seq<char>>, i: int) -> bool {
    &&& 0 <= i < all.len()
    &&& all[i].name != name
    &&& forall|j: int| 0 <= j < i ==> (#[trigger] all[j]).name == name
}

/// The position of the first display of `all` whose name is not `name`, or
/// `None` where every display of `all` bears that name.
pub open spec fn first_other(all: Seq<DisplayView>, name: Option<Seq<char>>) -> Option<int> {
    if exists|i: int| is_first_other(all, name, i) {
        Some(choose|i: int| is_first_other(all, name, i))
    } else {
        None
    }
}

/// The position in `all` of the secondary display. Without a primary there
/// is none; otherwise it is the first display whose name is not the
/// primary's.
pub open spec fn secondary_position(primary: Option<DisplayView>, all: Seq<DisplayView>) -> Option<
    int,
> {
    match primary {
        None => None,
        Some(primary) => first_other(all, primary.name),
    }
}

/// A display with another name than `name`, all displays before it bearing
/// `name`, is the one that [`first_other`] finds.
pub proof fn lemma_first_other_at(all: Seq<DisplayView>, name: Option<Seq<char>>, i: int)
    requires
        is_first_other(all, name, i),
    ensures
        first_other(all, name) == Some(i),
{
    let k = choose|k: int| is_first_other(all, name, k);
    if i < k {
        assert(all[i].name == name);
    } else if k < i {
        assert(all[k].name == name);
    }
}

/// Where [`first_other`] finds a display, that display has another name than
/// `name` and all before it bear `name`; where it finds none, every display
/// bears `name`.
pub proof fn lemma_first_other_found(all: Seq<DisplayView>, name: Option<Seq<char>>)
    ensures
        match first_other(all, name) {
            Some(i) => is_first_other(all, name, i),
            None => forall|j: int| 0 <= j < all.len() ==> (#[trigger] all[j]).name == name,
        },
{
    if first_other(all, name) is None {
        assert forall|j: int| 0 <= j < all.len() implies (#[trigger] all[j]).name == name by {
            lemma_all_named_before(all, name, j + 1);
        }
    }
}

/// Where no display has another name than `name` in first place, the first
/// `n` displays all bear `name`.
proof fn lemma_all_named_before(all: Seq<DisplayView>, name: Option<Seq<char>>, n: int)
    requires
        first_other(all, name) is None,
        0 <= n <= all.len(),
    ensures
        forall|j: int| 0 <= j < n ==> (#[trigger] all[j]).name == name,
    decreases n,
{
    if n > 0 {
        lemma_all_named_before(all, name, n - 1);
        if all[n - 1].name != name {
            assert(is_first_other(all, name, n - 1));
        }
    }
}

/// Compares two names as the host reports them: two absent names are equal,
/// and an absent name differs from every present one.
fn same_name(a: &Option<String>, b: &Option<String>) -> (same: bool)
    ensures
        same == (name_view(a) == name_view(b)),
{
    match (a, b) {
        (Some(a), Some(b)) => a.eq(b),
        (None, None) => true,
        _ => false,
    }
}

/// Returns a handle to the secondary monitor.
///
/// This is determined by comparing the primary monitor's name with those of
/// all available monitors, in the order given. The first monitor whose name
/// is not the primary's is returned. Without a primary there is no
/// secondary, and neither is there where every monitor bears the primary's
/// name.
pub fn secondary_monitor_handle<'a>(
    primary: Option<&DisplayDescriptor>,
    all: &'a [DisplayDescriptor],
) -> (picked: Option<&'a DisplayDescriptor>)
    ensures
        match secondary_position(option_view(primary), views(all@)) {
            Some(i) => 0 <= i < all.len() && picked == Some(&all[i]),
            None => picked is None,
        },
        primary is None ==> picked is None,
        picked matches Some(display) ==> display@.name != primary.unwrap()@.name,
        primary is Some && picked is None ==> forall|j: int|
            0 <= j < all.len() ==> (#[trigger] all[j])@.name == primary.unwrap()@.name,
{
    let primary_name = match primary {
        Some(primary) => &primary.name,
        None => {
            return None;
        },
    };
    let mut i: usize = 0;
    while i < all.len()
        invariant
            0 <= i <= all.len(),
            option_view(primary) matches Some(p) && p.name == name_view(primary_name),
            forall|j: int| 0 <= j < i ==> (#[trigger] all[j])@.name == name_view(primary_name),
        decreases all.len() - i,
    {
        if !same_name(&all[i].name, primary_name) {
            proof {
                lemma_first_other_at(views(all@), name_view(primary_name), i as int);
            }
            return Some(&all[i]);
        }
        i += 1;
    }
    proof {
        // A first display with another name would lie among those seen.
        lemma_first_other_found(views(all@), name_view(primary_name));
    }
    None
}

} // verus!
