//! Source discovery: from the answers of the bus names to the ranked list of
//! sources.

use crate::mpris::ranking::{is_ranking, rank_sources};
use crate::mpris::sources::{
    is_player_bus, is_player_name, source_models, source_of_probe, PlayerProbe, PlayerSource,
    SourceModel,
};
use vstd::prelude::*;

verus! {

/// The sources that the probes describe, in the order of the probes. A
/// probe of a bus name outside the players' namespace describes none.
pub open spec fn probed_sources(probes: Seq<PlayerProbe>) -> Seq<SourceModel>
    decreases probes.len(),
{
    if probes.len() == 0 {
        Seq::empty()
    } else if is_player_bus(probes.last().bus_name@) {
        probed_sources(probes.drop_last()).push(source_of_probe(probes.last()))
    } else {
        probed_sources(probes.drop_last())
    }
}

/// A copy of a probe.
fn copy_probe(probe: &PlayerProbe) -> (copy: PlayerProbe)
    ensures
        source_of_probe(copy) == source_of_probe(*probe),
        copy.bus_name@ == probe.bus_name@,
{
    PlayerProbe {
        bus_name: probe.bus_name.clone(),
        identity: match &probe.identity {
            Some(identity) => Some(identity.clone()),
            None => None,
        },
        can_seek: probe.can_seek,
    }
}

/// Builds the list of sources from what the bus names answered: the names
/// of the players' namespace are kept, a failed query takes its default, and
/// the sources are ranked. One failed query so never ends the discovery of
/// the other players.
pub fn discover_sources(probes: &Vec<PlayerProbe>) -> (sources: Vec<PlayerSource>)
    ensures
        exists|origin: Seq<int>|
            is_ranking(probed_sources(probes@), source_models(sources@), origin),
{
    let mut found: Vec<PlayerSource> = Vec::new();
    let mut i: usize = 0;
    assert(probes@.take(0) == Seq::<PlayerProbe>::empty());
    assert(source_models(found@) =~= Seq::<SourceModel>::empty());
    while i < probes.len()
        invariant
            i <= probes.len(),
            source_models(found@) == probed_sources(probes@.take(i as int)),
        decreases probes.len() - i,
    {
        proof {
            assert(probes@.take(i + 1).drop_last() == probes@.take(i as int));
            assert(probes@.take(i + 1).last() == probes@[i as int]);
        }
        if is_player_name(probes[i].bus_name.as_str()) {
            let ghost before = found@;
            let source = PlayerSource::from_probe(copy_probe(&probes[i]));
            found.push(source);
            assert(source_models(found@) =~= source_models(before).push(source@));
        }
        i += 1;
    }
    assert(probes@.take(probes.len() as int) == probes@);
    rank_sources(found)
}

} // verus!
