use vstd::prelude::*;

verus! {

/// Number of device indices that the search tries before it gives up.
pub const ENUMERATION_BOUND: u32 = 1000;

/// What the search for the camera does next.
#[derive(Clone, Copy, Debug, PartialEq, Eq, Structural)]
pub enum SearchStep {
    /// Open the device at this index and report its name.
    Probe(u32),
    /// The device at this index is the one that was asked for.
    Found(u32),
    /// No device within the bound has the name that was asked for.
    NotFound,
}

/// The name under which a probe reported a device, if there was one to open.
pub open spec fn label(probed: Option<String>) -> Option<Seq<char>> {
    match probed {
        Some(name) => Some(name@),
        None => None,
    }
}

/// The step that follows the probe of `index`: the search ends there where
/// the device has the wanted name, goes on to the next index where one is
/// left within the bound, and fails otherwise.
pub open spec fn step_after(wanted: Seq<char>, index: u32, probed: Option<Seq<char>>) -> SearchStep {
    if probed == Some(wanted) {
        SearchStep::Found(index)
    } else if index + 1 < ENUMERATION_BOUND {
        SearchStep::Probe((index + 1) as u32)
    } else {
        SearchStep::NotFound
    }
}

/// Whether the device at `index` of `labels` lies within the bound and has
/// the wanted name.
pub open spec fn is_match(labels: Seq<Option<String>>, wanted: Seq<char>, index: int) -> bool {
    &&& 0 <= index < labels.len()
    &&& index < ENUMERATION_BOUND
    &&& label(labels[index]) == Some(wanted)
}

/// The search starts at the first index.
pub fn first_step() -> (step: SearchStep)
    ensures
        step == SearchStep::Probe(0),
{
    SearchStep::Probe(0)
}

/// Decides what follows the probe of `index`, given the name that the
/// device there reported, or `None` where no device could be opened.
pub fn next_step(wanted: &String, index: u32, probed: &Option<String>) -> (step: SearchStep)
    ensures
        step == step_after(wanted@, index, label(*probed)),
{
    let named: bool = match probed {
        Some(name) => *name == *wanted,
        None => false,
    };
    if named {
        SearchStep::Found(index)
    } else if index < ENUMERATION_BOUND - 1 {
        SearchStep::Probe(index + 1)
    } else {
        SearchStep::NotFound
    }
}

/// Runs the search over the names that the devices report, by index: the
/// first index within the bound whose device has the wanted name.
pub fn select_device(labels: &Vec<Option<String>>, wanted: &String) -> (found: Option<u32>)
    ensures
        match found {
            Some(index) => is_match(labels@, wanted@, index as int) && forall|earlier: int|
                0 <= earlier < index ==> !is_match(labels@, wanted@, earlier),
            None => forall|index: int| !is_match(labels@, wanted@, index),
        },
{
    let mut step = first_step();
    loop
        invariant_except_break
            step matches SearchStep::Probe(index) && index < ENUMERATION_BOUND && forall|
                earlier: int,
            |
                0 <= earlier < index ==> !is_match(labels@, wanted@, earlier),
        ensures
            match step {
                SearchStep::Found(index) => is_match(labels@, wanted@, index as int) && forall|
                    earlier: int,
                |
                    0 <= earlier < index ==> !is_match(labels@, wanted@, earlier),
                SearchStep::NotFound => forall|index: int| !is_match(labels@, wanted@, index),
                SearchStep::Probe(_) => false,
            },
        decreases
            (match step {
                SearchStep::Probe(index) => ENUMERATION_BOUND - index,
                _ => 0,
            }),
    {
        match step {
            SearchStep::Probe(index) => {
                if (index as usize) < labels.len() {
                    step = next_step(wanted, index, &labels[index as usize]);
                } else {
                    step = SearchStep::NotFound;
                }
                match step {
                    SearchStep::Probe(_) => {},
                    _ => {
                        break ;
                    },
                }
            },
            _ => {
                break ;
            },
        }
    }
    match step {
        SearchStep::Found(index) => Some(index),
        _ => None,
    }
}

} // verus!
