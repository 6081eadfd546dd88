use vstd::prelude::*;
use crate::data::missiles::seekers::{SeekerKey, SeekerKind, SeekerMode, Countermeasure, CountermeasureCategory};
use crate::products::{spec_cartesian, spec_multi_product, cartesian_product, multi_cartesian_product, copy_vec, positions};
use crate::data::missiles::seekers::matrix::{CountermeasureMatrix, CountermeasuresMask, mask_before, num_count, lemma_matrix_ext, lemma_mask_num_round_trip};

verus! {

impl SeekerKey {
    pub open spec fn spec_seeker_kind(self) -> SeekerKind {
        match self {
            SeekerKey::Command => SeekerKind::Command,
            SeekerKey::FixedActiveRadar => SeekerKind::ActiveRadar,
            SeekerKey::SteerableActiveRadar => SeekerKind::ActiveRadar,
            SeekerKey::SteerableExtendedActiveRadar => SeekerKind::ActiveRadar,
            SeekerKey::FixedSemiActiveRadar => SeekerKind::SemiActiveRadar,
            SeekerKey::FixedAntiRadiation => SeekerKind::AntiRadiation,
            SeekerKey::FixedHomeOnJam => SeekerKind::HomeOnJam,
            SeekerKey::ElectroOptical => SeekerKind::ElectroOptical,
            SeekerKey::WakeHoming => SeekerKind::WakeHoming,
        }
    }

    /// The method of operation of this seeker.
    pub fn seeker_kind(self) -> (r: SeekerKind)
        ensures
            r == self.spec_seeker_kind(),
    {
        match self {
            SeekerKey::Command => SeekerKind::Command,
            SeekerKey::FixedActiveRadar => SeekerKind::ActiveRadar,
            SeekerKey::SteerableActiveRadar => SeekerKind::ActiveRadar,
            SeekerKey::SteerableExtendedActiveRadar => SeekerKind::ActiveRadar,
            SeekerKey::FixedSemiActiveRadar => SeekerKind::SemiActiveRadar,
            SeekerKey::FixedAntiRadiation => SeekerKind::AntiRadiation,
            SeekerKey::FixedHomeOnJam => SeekerKind::HomeOnJam,
            SeekerKey::ElectroOptical => SeekerKind::ElectroOptical,
            SeekerKey::WakeHoming => SeekerKind::WakeHoming,
        }
    }
}

impl SeekerKind {
    pub open spec fn spec_can_measure_distance(self) -> bool {
        match self {
            SeekerKind::Command => true,
            SeekerKind::ActiveRadar => true,
            SeekerKind::SemiActiveRadar => false,
            SeekerKind::AntiRadiation => false,
            SeekerKind::HomeOnJam => false,
            SeekerKind::ElectroOptical => true,
            SeekerKind::WakeHoming => false,
        }
    }

    /// Whether this kind of seeker can tell how far its target is.
    pub fn can_measure_distance(self) -> (r: bool)
        ensures
            r == self.spec_can_measure_distance(),
    {
        match self {
            SeekerKind::Command => true,
            SeekerKind::ActiveRadar => true,
            SeekerKind::SemiActiveRadar => false,
            SeekerKind::AntiRadiation => false,
            SeekerKind::HomeOnJam => false,
            SeekerKind::ElectroOptical => true,
            SeekerKind::WakeHoming => false,
        }
    }

    pub open spec fn spec_can_measure_velocity(self) -> bool {
        match self {
            SeekerKind::Command => true,
            SeekerKind::ActiveRadar => true,
            SeekerKind::SemiActiveRadar => true,
            SeekerKind::AntiRadiation => false,
            SeekerKind::HomeOnJam => false,
            SeekerKind::ElectroOptical => true,
            SeekerKind::WakeHoming => false,
        }
    }

    /// Whether this kind of seeker can tell how fast its target moves.
    pub fn can_measure_velocity(self) -> (r: bool)
        ensures
            r == self.spec_can_measure_velocity(),
    {
        match self {
            SeekerKind::Command => true,
            SeekerKind::ActiveRadar => true,
            SeekerKind::SemiActiveRadar => true,
            SeekerKind::AntiRadiation => false,
            SeekerKind::HomeOnJam => false,
            SeekerKind::ElectroOptical => true,
            SeekerKind::WakeHoming => false,
        }
    }

    /// The seekers of this kind, in declaration order.
    pub open spec fn spec_seeker_keys(self) -> Seq<SeekerKey> {
        SeekerKey::spec_values().filter(|k: SeekerKey| k.spec_seeker_kind() == self)
    }

    /// The seekers of this kind, in declaration order.
    pub fn seeker_keys(self) -> (r: Vec<SeekerKey>)
        ensures
            r@ == self.spec_seeker_keys(),
    {
        let all = SeekerKey::values();
        let mut r: Vec<SeekerKey> = Vec::new();
        let mut i: usize = 0;
        while i < all.len()
            invariant
                all@ == SeekerKey::spec_values(),
                i <= all@.len(),
                r@ == all@.take(i as int).filter(|k: SeekerKey| k.spec_seeker_kind() == self),
            decreases all.len() - i,
        {
            let k = all[i];
            proof {
                reveal_with_fuel(Seq::filter, 1);
                assert(all@.take(i as int + 1).drop_last() == all@.take(i as int));
            }
            if k.seeker_kind() == self {
                r.push(k);
            }
            i = i + 1;
        }
        proof {
            assert(all@.take(all@.len() as int) == all@);
        }
        r
    }

    /// The seekers of this kind, in declaration order.
    pub fn iter_seeker_keys(self) -> (r: Vec<SeekerKey>)
        ensures
            r@ == self.spec_seeker_keys(),
    {
        self.seeker_keys()
    }

    /// The countermeasures that defeat this kind of seeker.
    pub open spec fn spec_defeating_mask(self) -> CountermeasuresMask {
        match self {
            SeekerKind::Command => CountermeasuresMask::spec_from_fn(|cm: Countermeasure| cm == Countermeasure::CommsJamming),
            SeekerKind::ActiveRadar | SeekerKind::SemiActiveRadar => CountermeasuresMask::spec_from_fn(
                |cm: Countermeasure| cm == Countermeasure::RadarJamming || cm == Countermeasure::ChaffDecoy || cm == Countermeasure::ActiveDecoy,
            ),
            SeekerKind::AntiRadiation => CountermeasuresMask::spec_from_fn(
                |cm: Countermeasure| cm == Countermeasure::ActiveDecoy || cm == Countermeasure::CutRadar,
            ),
            SeekerKind::HomeOnJam => CountermeasuresMask::spec_from_fn(|cm: Countermeasure| false),
            SeekerKind::ElectroOptical => CountermeasuresMask::spec_from_fn(|cm: Countermeasure| cm == Countermeasure::LaserDazzler),
            SeekerKind::WakeHoming => CountermeasuresMask::spec_from_fn(
                |cm: Countermeasure| cm == Countermeasure::FlareDecoy || cm == Countermeasure::CutEngines,
            ),
        }
    }

    /// The countermeasures that defeat this kind of seeker.
    pub fn defeating_countermeasures_mask(self) -> (r: CountermeasuresMask)
        ensures
            r == self.spec_defeating_mask(),
    {
        let none = CountermeasuresMask::mask_none();
        match self {
            SeekerKind::Command => CountermeasureMatrix { comms_jamming: true, ..none },
            SeekerKind::ActiveRadar | SeekerKind::SemiActiveRadar => CountermeasureMatrix {
                radar_jamming: true,
                chaff_decoy: true,
                active_decoy: true,
                ..none
            },
            SeekerKind::AntiRadiation => CountermeasureMatrix { active_decoy: true, cut_radar: true, ..none },
            SeekerKind::HomeOnJam => none,
            SeekerKind::ElectroOptical => CountermeasureMatrix { laser_dazzler: true, ..none },
            SeekerKind::WakeHoming => CountermeasureMatrix { flare_decoy: true, cut_engines: true, ..none },
        }
    }

    /// Whether this seeker alone is defeated by the single countermeasure `cm`.
    pub fn is_defeated_by_one(self, cm: Countermeasure) -> (r: bool)
        ensures
            r == self.spec_defeating_mask().has(cm),
    {
        *self.defeating_countermeasures_mask().get(cm)
    }

    /// The countermeasures among `cms` that defeat this seeker alone, if any.
    /// Anti-radiation and home-on-jam seekers find the target whenever radar
    /// jamming is present.
    pub open spec fn spec_get_defeating(self, cms: CountermeasuresMask) -> Option<CountermeasuresMask> {
        if (self == SeekerKind::AntiRadiation || self == SeekerKind::HomeOnJam) && cms.radar_jamming {
            None
        } else {
            let d = self.spec_defeating_mask().spec_and(cms);
            if d.spec_any() {
                Some(d)
            } else {
                None
            }
        }
    }

    /// The countermeasures among `countermeasures` that defeat this seeker
    /// alone, if any.
    pub fn get_defeating_countermeasures(self, countermeasures: CountermeasuresMask) -> (r: Option<CountermeasuresMask>)
        ensures
            r == self.spec_get_defeating(countermeasures),
    {
        if (self == SeekerKind::AntiRadiation || self == SeekerKind::HomeOnJam) && countermeasures.radar_jamming {
            return None;
        }
        let d = self.defeating_countermeasures_mask().and(countermeasures);
        if d.any() {
            Some(d)
        } else {
            None
        }
    }

    /// Whether this seeker alone is defeated by `countermeasures`.
    pub fn is_defeated_by(self, countermeasures: CountermeasuresMask) -> (r: bool)
        ensures
            r == self.spec_get_defeating(countermeasures) is Some,
    {
        self.get_defeating_countermeasures(countermeasures).is_some()
    }
}

} // verus!

verus! {

/// A targeting seeker followed by the seekers that back it up or validate its
/// targets.
#[derive(Debug, Clone, PartialEq, Eq, PartialOrd, Ord)]
pub struct SeekerStrategy<S> {
    /// The first targeting seeker.
    pub primary: S,
    /// The following seekers, each targeting (a backup) or validating.
    pub secondaries: Vec<(S, SeekerMode)>,
}

/// A seeker strategy of concrete seekers.
pub type SeekerStrategyFull = SeekerStrategy<SeekerKey>;

impl<S: Copy> SeekerStrategy<S> {
    /// The seekers of the strategy in order, the primary first as a targeting
    /// seeker.
    pub open spec fn spec_items(self) -> Seq<(S, SeekerMode)> {
        seq![(self.primary, SeekerMode::Targeting)] + self.secondaries@
    }

    /// The strategy of `primary` followed by `secondaries`.
    pub fn new(primary: S, secondaries: Vec<(S, SeekerMode)>) -> (r: Self)
        ensures
            r.primary == primary,
            r.secondaries@ == secondaries@,
    {
        SeekerStrategy { primary, secondaries }
    }

    /// The strategy of `primary` alone.
    pub fn new_single(primary: S) -> (r: Self)
        ensures
            r.primary == primary,
            r.secondaries@.len() == 0,
    {
        SeekerStrategy { primary, secondaries: Vec::new() }
    }

    /// A copy of this strategy.
    fn duplicate(&self) -> (r: Self)
        ensures
            r.primary == self.primary,
            r.secondaries@ == self.secondaries@,
    {
        let mut secondaries: Vec<(S, SeekerMode)> = Vec::new();
        let mut i: usize = 0;
        while i < self.secondaries.len()
            invariant
                i <= self.secondaries@.len(),
                secondaries@ == self.secondaries@.take(i as int),
            decreases self.secondaries.len() - i,
        {
            secondaries.push(self.secondaries[i]);
            proof {
                assert(self.secondaries@.take(i as int + 1) == self.secondaries@.take(i as int).push(self.secondaries@[i as int]));
            }
            i = i + 1;
        }
        proof {
            assert(self.secondaries@.take(i as int) == self.secondaries@);
        }
        SeekerStrategy { primary: self.primary, secondaries }
    }

    /// The number of seekers, the primary included.
    pub fn len(&self) -> (r: usize)
        requires
            self.secondaries@.len() < usize::MAX,
        ensures
            r == self.secondaries@.len() + 1,
    {
        self.secondaries.len() + 1
    }

    /// The seekers of the strategy in order, the primary first as a targeting
    /// seeker.
    pub fn iter(&self) -> (r: Vec<(S, SeekerMode)>)
        ensures
            r@ == self.spec_items(),
    {
        let mut r: Vec<(S, SeekerMode)> = Vec::new();
        r.push((self.primary, SeekerMode::Targeting));
        let mut i: usize = 0;
        while i < self.secondaries.len()
            invariant
                i <= self.secondaries@.len(),
                r@ == seq![(self.primary, SeekerMode::Targeting)] + self.secondaries@.take(i as int),
            decreases self.secondaries.len() - i,
        {
            r.push(self.secondaries[i]);
            proof {
                assert(self.secondaries@.take(i as int + 1) == self.secondaries@.take(i as int).push(self.secondaries@[i as int]));
            }
            i = i + 1;
        }
        proof {
            assert(self.secondaries@.take(i as int) == self.secondaries@);
        }
        r
    }
}

/// The end of the run of validating seekers that starts at `start`.
pub open spec fn validation_run_end(items: Seq<(SeekerKind, SeekerMode)>, start: int) -> int
    decreases items.len() - start,
{
    if start < 0 || start >= items.len() || items[start].1 != SeekerMode::Validation {
        start
    } else {
        validation_run_end(items, start + 1)
    }
}

/// A run of validating seekers ends between its start and the end of the list.
pub proof fn lemma_validation_run_end_bounds(items: Seq<(SeekerKind, SeekerMode)>, start: int)
    requires
        0 <= start,
    ensures
        start <= validation_run_end(items, start),
        validation_run_end(items, start) <= if start <= items.len() { items.len() as int } else { start },
    decreases items.len() - start,
{
    if !(start >= items.len() || items[start].1 != SeekerMode::Validation) {
        lemma_validation_run_end_bounds(items, start + 1);
    }
}

/// The layers of `items` from position `start`: each targeting seeker with the
/// validating seekers that directly follow it.
pub open spec fn seeker_layers_from(items: Seq<(SeekerKind, SeekerMode)>, start: int) -> Seq<(SeekerKind, Seq<SeekerKind>)>
    decreases items.len() - start,
{
    if start < 0 || start >= items.len() {
        Seq::empty()
    } else {
        let end = validation_run_end(items, start + 1);
        proof {
            lemma_validation_run_end_bounds(items, start + 1);
        }
        seq![(items[start].0, items.subrange(start + 1, end).map_values(|p: (SeekerKind, SeekerMode)| p.0))]
            + seeker_layers_from(items, end)
    }
}

/// The layers of a strategy: each targeting seeker with the validating seekers
/// attached to it.
pub open spec fn seeker_layers(items: Seq<(SeekerKind, SeekerMode)>) -> Seq<(SeekerKind, Seq<SeekerKind>)> {
    seeker_layers_from(items, 0)
}

/// Reads the layer that starts at `start` into `buffer` and returns the
/// position of the next layer.
fn next_seeker_layer(items: &Vec<(SeekerKind, SeekerMode)>, start: usize, buffer: &mut Vec<SeekerKind>) -> (end: usize)
    requires
        start < items@.len(),
    ensures
        end == validation_run_end(items@, start + 1),
        start < end <= items@.len(),
        final(buffer)@ == items@.subrange(start + 1, end as int).map_values(|p: (SeekerKind, SeekerMode)| p.0),
        seeker_layers_from(items@, start as int) == seq![(items@[start as int].0, final(buffer)@)] + seeker_layers_from(items@, end as int),
{
    buffer.clear();
    let n = items.len();
    let mut j: usize = start + 1;
    while j < items.len() && items[j].1 == SeekerMode::Validation
        invariant
            start < j <= items@.len(),
            validation_run_end(items@, start + 1) == validation_run_end(items@, j as int),
            buffer@ == items@.subrange(start + 1, j as int).map_values(|p: (SeekerKind, SeekerMode)| p.0),
        decreases items.len() - j,
    {
        buffer.push(items[j].0);
        proof {
            assert(items@.subrange(start + 1, j + 1).map_values(|p: (SeekerKind, SeekerMode)| p.0)
                == items@.subrange(start + 1, j as int).map_values(|p: (SeekerKind, SeekerMode)| p.0).push(items@[j as int].0));
        }
        j = j + 1;
    }
    j
}

/// Whether `seekers` repeats a seeker or pairs seekers that duplicate each
/// other's role (active with semi-active radar, anti-radiation with home-on-jam).
pub open spec fn spec_has_redundancy(seekers: Seq<SeekerKind>) -> bool {
    ||| !seekers.no_duplicates()
    ||| (seekers.contains(SeekerKind::ActiveRadar) && seekers.contains(SeekerKind::SemiActiveRadar))
    ||| (seekers.contains(SeekerKind::AntiRadiation) && seekers.contains(SeekerKind::HomeOnJam))
}

fn kinds_contain(seekers: &Vec<SeekerKind>, kind: SeekerKind) -> (r: bool)
    ensures
        r == seekers@.contains(kind),
{
    let mut i: usize = 0;
    while i < seekers.len()
        invariant
            i <= seekers@.len(),
            forall|j: int| 0 <= j < i ==> seekers@[j] != kind,
        decreases seekers.len() - i,
    {
        if seekers[i] == kind {
            return true;
        }
        i = i + 1;
    }
    false
}

fn has_redundancy(seekers: &Vec<SeekerKind>) -> (r: bool)
    ensures
        r == spec_has_redundancy(seekers@),
{
    let mut i: usize = 0;
    while i < seekers.len()
        invariant
            i <= seekers@.len(),
            forall|a: int, b: int| 0 <= a < i && 0 <= b < seekers@.len() && a != b ==> seekers@[a] != seekers@[b],
        decreases seekers.len() - i,
    {
        let mut j: usize = 0;
        while j < seekers.len()
            invariant
                i < seekers@.len(),
                j <= seekers@.len(),
                forall|a: int, b: int| 0 <= a < i && 0 <= b < seekers@.len() && a != b ==> seekers@[a] != seekers@[b],
                forall|b: int| 0 <= b < j && b != i ==> seekers@[i as int] != seekers@[b],
            decreases seekers.len() - j,
        {
            if j != i && seekers[i] == seekers[j] {
                return true;
            }
            j = j + 1;
        }
        i = i + 1;
    }
    (kinds_contain(seekers, SeekerKind::ActiveRadar) && kinds_contain(seekers, SeekerKind::SemiActiveRadar))
        || (kinds_contain(seekers, SeekerKind::AntiRadiation) && kinds_contain(seekers, SeekerKind::HomeOnJam))
}

} // verus!

verus! {

/// The decoys that remain after the validating seekers, in order, each rule out
/// the decoys that do not fool it; a validating seeker that `jamming` defeats
/// validates nothing.
pub open spec fn remaining_decoys(decoys: CountermeasuresMask, validators: Seq<SeekerKind>, jamming: CountermeasuresMask) -> CountermeasuresMask
    decreases validators.len(),
{
    if validators.len() == 0 {
        decoys
    } else {
        let v = validators[0];
        let next = if v.spec_get_defeating(jamming) is Some { decoys } else { decoys.spec_and(v.spec_defeating_mask()) };
        remaining_decoys(next, validators.drop_first(), jamming)
    }
}

/// Whether a missile whose seeker layers are `layers` is defeated by `cms`.
///
/// A home-on-jam seeker sees the target exactly when radar jamming is present;
/// otherwise the next layer takes over. A seeker that no countermeasure
/// defeats finds the target. A jammed seeker hands over to the next layer. A
/// decoyed seeker stays decoyed unless its validating seekers rule out every
/// decoy; a seeker whose decoys are all ruled out but whose target is
/// concealed hands over to the next layer. When no layer is left, the missile
/// is defeated.
pub open spec fn layers_defeated(layers: Seq<(SeekerKind, Seq<SeekerKind>)>, cms: CountermeasuresMask) -> bool
    decreases layers.len(),
{
    if layers.len() == 0 {
        true
    } else {
        let seeker = layers[0].0;
        let validators = layers[0].1;
        let rest = layers_defeated(layers.drop_first(), cms);
        if seeker == SeekerKind::HomeOnJam {
            if cms.radar_jamming { false } else { rest }
        } else {
            match seeker.spec_get_defeating(cms) {
                None => false,
                Some(d) => {
                    let jammed = d.spec_and(CountermeasuresMask::spec_from_fn(
                        |cm: Countermeasure| cm.spec_category() == CountermeasureCategory::Jamming)).spec_any();
                    let concealed = d.spec_and(CountermeasuresMask::spec_from_fn(
                        |cm: Countermeasure| cm.spec_category() == CountermeasureCategory::Concealment)).spec_any();
                    if jammed {
                        rest
                    } else {
                        let jamming = cms.spec_and(CountermeasuresMask::spec_from_fn(
                            |cm: Countermeasure| cm.spec_category() == CountermeasureCategory::Jamming));
                        let decoys = remaining_decoys(
                            d.spec_and(CountermeasuresMask::spec_from_fn(
                                |cm: Countermeasure| cm.spec_category() == CountermeasureCategory::Decoy)),
                            validators,
                            jamming,
                        );
                        if !decoys.spec_any() && concealed { rest } else { decoys.spec_any() }
                    }
                },
            }
        }
    }
}

/// Whether layer `k` of `layers` obeys the rules of a reasonable strategy whose
/// primary seeker is `primary`.
pub open spec fn layer_is_reasonable(layers: Seq<(SeekerKind, Seq<SeekerKind>)>, k: int, primary: SeekerKind) -> bool {
    let seeker = layers[k].0;
    let validators = layers[k].1;
    let is_primary = k == 0;
    // wake-homing seekers cannot have backups: those would be better as primaries
    &&& !(primary == SeekerKind::WakeHoming && !is_primary)
    // command receivers cannot be backups: they would be better as primaries
    &&& !(seeker == SeekerKind::Command && !is_primary)
    // command receivers, wake-homing and home-on-jam seekers take no validators
    &&& !((seeker == SeekerKind::Command || seeker == SeekerKind::WakeHoming || seeker == SeekerKind::HomeOnJam)
        && validators.len() > 0)
    // home-on-jam seekers are primaries or back up active or semi-active radar
    &&& !(seeker == SeekerKind::HomeOnJam && !(is_primary || layers[k - 1].0 == SeekerKind::ActiveRadar
        || layers[k - 1].0 == SeekerKind::SemiActiveRadar))
    // anti-radiation seekers take only a wake-homing validator
    &&& !(seeker == SeekerKind::AntiRadiation && !(validators.len() == 0 || validators == seq![SeekerKind::WakeHoming]))
    // electro-optical seekers take only a command receiver validator
    &&& !(seeker == SeekerKind::ElectroOptical && !(validators.len() == 0 || validators == seq![SeekerKind::Command]))
    // active radar, semi-active radar and home-on-jam do not validate
    &&& !validators.contains(SeekerKind::ActiveRadar)
    &&& !validators.contains(SeekerKind::SemiActiveRadar)
    &&& !validators.contains(SeekerKind::HomeOnJam)
    // a seeker is not validated by one of its own kind
    &&& !validators.contains(seeker)
    &&& !spec_has_redundancy(validators)
}

/// The targeting seekers of `layers`, in order.
pub open spec fn layer_targets(layers: Seq<(SeekerKind, Seq<SeekerKind>)>) -> Seq<SeekerKind> {
    layers.map_values(|l: (SeekerKind, Seq<SeekerKind>)| l.0)
}

/// Whether a strategy with these layers and this primary seeker is reasonable:
/// every layer obeys the rules, the strategy is not home-on-jam alone, and no
/// two targeting seekers are redundant.
pub open spec fn layers_are_reasonable(layers: Seq<(SeekerKind, Seq<SeekerKind>)>, primary: SeekerKind) -> bool {
    &&& forall|k: int| 0 <= k < layers.len() ==> #[trigger] layer_is_reasonable(layers, k, primary)
    &&& layer_targets(layers) != seq![SeekerKind::HomeOnJam]
    &&& !spec_has_redundancy(layer_targets(layers))
}

/// Whether the strategy of `primary` followed by `secondaries` is worth
/// considering.
pub open spec fn strategy_is_reasonable(primary: SeekerKind, secondaries: Seq<(SeekerKind, SeekerMode)>) -> bool {
    layers_are_reasonable(seeker_layers(seq![(primary, SeekerMode::Targeting)] + secondaries), primary)
}

impl SeekerStrategy<SeekerKind> {
    /// Whether `countermeasures` defeat a missile with this strategy.
    pub open spec fn spec_is_defeated_by(self, countermeasures: CountermeasuresMask) -> bool {
        layers_defeated(seeker_layers(self.spec_items()), countermeasures)
    }

    /// Whether this strategy is worth considering.
    pub open spec fn spec_is_reasonable(self) -> bool {
        strategy_is_reasonable(self.primary, self.secondaries@)
    }

    /// Whether `countermeasures` defeat a missile with this strategy.
    pub fn is_defeated_by(&self, countermeasures: CountermeasuresMask) -> (r: bool)
        ensures
            r == self.spec_is_defeated_by(countermeasures),
    {
        let jamming = countermeasures.mask_category(CountermeasureCategory::Jamming);
        let items = self.iter();
        let ghost all = seeker_layers(items@);
        let mut buffer: Vec<SeekerKind> = Vec::new();
        let mut start: usize = 0;
        while start < items.len()
            invariant
                start <= items@.len(),
                items@ == self.spec_items(),
                all == seeker_layers(self.spec_items()),
                jamming == countermeasures.spec_and(CountermeasuresMask::spec_from_fn(
                    |cm: Countermeasure| cm.spec_category() == CountermeasureCategory::Jamming)),
                layers_defeated(all, countermeasures) == layers_defeated(seeker_layers_from(items@, start as int), countermeasures),
            decreases items.len() - start,
        {
            let end = next_seeker_layer(&items, start, &mut buffer);
            let seeker = items[start].0;
            let ghost layers = seeker_layers_from(items@, start as int);
            proof {
                assert(layers.drop_first() == seeker_layers_from(items@, end as int));
                assert(layers[0] == (seeker, buffer@));
                assert(layers.len() > 0);
            }
            if seeker == SeekerKind::HomeOnJam {
                if countermeasures.radar_jamming {
                    assert(!layers_defeated(layers, countermeasures));
                    return false;
                }
                start = end;
                continue;
            }
            match seeker.get_defeating_countermeasures(countermeasures) {
                Some(defeating) => {
                    let defeated_by_jamming = defeating.mask_category(CountermeasureCategory::Jamming).any();
                    let defeated_by_concealment = defeating.mask_category(CountermeasureCategory::Concealment).any();
                    if defeated_by_jamming {
                        start = end;
                        continue;
                    }
                    let mut decoys = defeating.mask_category(CountermeasureCategory::Decoy);
                    let ghost initial = decoys;
                    let mut i: usize = 0;
                    assert(buffer@.skip(0) == buffer@);
                    while i < buffer.len()
                        invariant
                            i <= buffer@.len(),
                            remaining_decoys(initial, buffer@, jamming)
                                == remaining_decoys(decoys, buffer@.skip(i as int), jamming),
                        decreases buffer.len() - i,
                    {
                        let validating = buffer[i];
                        proof {
                            assert(buffer@.skip(i as int).drop_first() == buffer@.skip(i as int + 1));
                        }
                        if !validating.is_defeated_by(jamming) {
                            decoys = decoys.and(validating.defeating_countermeasures_mask());
                        }
                        i = i + 1;
                    }
                    proof {
                        assert(buffer@.skip(i as int).len() == 0);
                    }
                    let defeated_by_decoys = decoys.any();
                    if !defeated_by_decoys && defeated_by_concealment {
                        start = end;
                        continue;
                    }
                    assert(layers_defeated(layers, countermeasures) == defeated_by_decoys);
                    return defeated_by_decoys;
                },
                None => {
                    assert(!layers_defeated(layers, countermeasures));
                    return false;
                },
            }
        }
        true
    }

    /// Whether this strategy is worth considering: see [`layers_are_reasonable`].
    pub fn is_reasonable(&self) -> (r: bool)
        ensures
            r == self.spec_is_reasonable(),
    {
        let items = self.iter();
        let ghost all = seeker_layers(items@);
        let mut buffer: Vec<SeekerKind> = Vec::new();
        let mut targets: Vec<SeekerKind> = Vec::new();
        let mut start: usize = 0;
        let ghost mut done: Seq<(SeekerKind, Seq<SeekerKind>)> = Seq::empty();
        while start < items.len()
            invariant
                start <= items@.len(),
                items@ == self.spec_items(),
                all == seeker_layers(self.spec_items()),
                all == done + seeker_layers_from(items@, start as int),
                targets@ == layer_targets(done),
                forall|k: int| 0 <= k < done.len() ==> #[trigger] layer_is_reasonable(all, k, self.primary),
                start == 0 <==> done.len() == 0,
            decreases items.len() - start,
        {
            let end = next_seeker_layer(&items, start, &mut buffer);
            let seeker = items[start].0;
            let ghost k = done.len() as int;
            proof {
                assert(all[k] == (seeker, buffer@));
                lemma_validation_run_end_bounds(items@, start + 1);
            }
            let ok = self.layer_is_ok(seeker, &buffer, &targets);
            proof {
                if k > 0 {
                    assert(all[k - 1].0 == targets@[k - 1]);
                }
                assert(ok == layer_is_reasonable(all, k, self.primary));
            }
            if !ok {
                assert(!layer_is_reasonable(all, k, self.primary));
                assert(!layers_are_reasonable(all, self.primary));
                return false;
            }
            targets.push(seeker);
            proof {
                done = done.push((seeker, buffer@));
                assert(all == done + seeker_layers_from(items@, end as int));
                assert(targets@ == layer_targets(done));
            }
            start = end;
        }
        proof {
            assert(done == all);
        }
        if targets.len() == 1 && targets[0] == SeekerKind::HomeOnJam {
            proof {
                assert(targets@ == seq![SeekerKind::HomeOnJam]);
            }
            return false;
        }
        !has_redundancy(&targets)
    }

    fn layer_is_ok(&self, seeker: SeekerKind, validators: &Vec<SeekerKind>, targets: &Vec<SeekerKind>) -> (r: bool)
        ensures
            r == {
                let layers = layer_targets_with(targets@, seeker, validators@);
                layer_is_reasonable(layers, targets@.len() as int, self.primary)
            },
    {
        let is_primary = targets.len() == 0;
        let previous = if is_primary { None } else { Some(targets[targets.len() - 1]) };
        if self.primary == SeekerKind::WakeHoming && !is_primary {
            return false;
        }
        if seeker == SeekerKind::Command && !is_primary {
            return false;
        }
        if (seeker == SeekerKind::Command || seeker == SeekerKind::WakeHoming || seeker == SeekerKind::HomeOnJam)
            && validators.len() > 0 {
            return false;
        }
        if seeker == SeekerKind::HomeOnJam {
            match previous {
                None => {},
                Some(SeekerKind::ActiveRadar) => {},
                Some(SeekerKind::SemiActiveRadar) => {},
                Some(_) => {
                    return false;
                },
            }
        }
        let only_wake = validators.len() == 1 && validators[0] == SeekerKind::WakeHoming;
        let only_command = validators.len() == 1 && validators[0] == SeekerKind::Command;
        proof {
            if validators@ == seq![SeekerKind::WakeHoming] {
                assert(validators@[0] == SeekerKind::WakeHoming);
            }
            if validators@ == seq![SeekerKind::Command] {
                assert(validators@[0] == SeekerKind::Command);
            }
            if only_wake {
                assert(validators@ == seq![SeekerKind::WakeHoming]);
            }
            if only_command {
                assert(validators@ == seq![SeekerKind::Command]);
            }
        }
        if seeker == SeekerKind::AntiRadiation && !(validators.len() == 0 || only_wake) {
            return false;
        }
        if seeker == SeekerKind::ElectroOptical && !(validators.len() == 0 || only_command) {
            return false;
        }
        if kinds_contain(validators, SeekerKind::ActiveRadar) {
            return false;
        }
        if kinds_contain(validators, SeekerKind::SemiActiveRadar) {
            return false;
        }
        if kinds_contain(validators, SeekerKind::HomeOnJam) {
            return false;
        }
        if kinds_contain(validators, seeker) {
            return false;
        }
        !has_redundancy(validators)
    }
}

/// Layers whose targeting seekers are `targets` (with no validators) followed
/// by `seeker` with `validators`: enough to judge the last layer, which looks
/// back only at the targeting seeker before it.
pub open spec fn layer_targets_with(targets: Seq<SeekerKind>, seeker: SeekerKind, validators: Seq<SeekerKind>) -> Seq<(SeekerKind, Seq<SeekerKind>)> {
    targets.map_values(|t: SeekerKind| (t, Seq::<SeekerKind>::empty())).push((seeker, validators))
}

} // verus!

verus! {

/// A mask with fewer countermeasures than one it is part of.
pub proof fn lemma_subset_count(s: CountermeasuresMask, m: CountermeasuresMask)
    requires
        s.is_subset_of(m),
    ensures
        s.spec_count_trues() <= m.spec_count_trues(),
        s != m ==> s.spec_count_trues() < m.spec_count_trues(),
{
    assert(s.has(Countermeasure::RadarJamming) ==> m.has(Countermeasure::RadarJamming));
    assert(s.has(Countermeasure::CommsJamming) ==> m.has(Countermeasure::CommsJamming));
    assert(s.has(Countermeasure::LaserDazzler) ==> m.has(Countermeasure::LaserDazzler));
    assert(s.has(Countermeasure::ChaffDecoy) ==> m.has(Countermeasure::ChaffDecoy));
    assert(s.has(Countermeasure::FlareDecoy) ==> m.has(Countermeasure::FlareDecoy));
    assert(s.has(Countermeasure::ActiveDecoy) ==> m.has(Countermeasure::ActiveDecoy));
    assert(s.has(Countermeasure::CutEngines) ==> m.has(Countermeasure::CutEngines));
    assert(s.has(Countermeasure::CutRadar) ==> m.has(Countermeasure::CutRadar));
}

/// Whether `list` holds a mask that is part of `m` without being `m`.
fn contains_strict_subset(list: &Vec<CountermeasuresMask>, m: CountermeasuresMask) -> (r: bool)
    ensures
        r == exists|j: int| 0 <= j < list@.len() && (#[trigger] list@[j]).is_subset_of(m) && list@[j] != m,
{
    let mut j: usize = list.len();
    while j > 0
        invariant
            j <= list@.len(),
            forall|k: int| j <= k < list@.len() ==> !((#[trigger] list@[k]).is_subset_of(m) && list@[k] != m),
        decreases j,
    {
        j = j - 1;
        let sub = list[j];
        let both = m.and(sub);
        proof {
            if sub.is_subset_of(m) {
                assert forall|cm: Countermeasure| #[trigger] both.spec_get(cm) == sub.spec_get(cm) by {
                    assert(sub.has(cm) ==> m.has(cm));
                }
                lemma_matrix_ext(both, sub);
            }
        }
        if sub != m && both == sub {
            return true;
        }
    }
    false
}

/// With no countermeasure at all, a missile whose seeker layers are `layers`
/// is defeated exactly when each of its targeting seekers is home-on-jam.
pub proof fn lemma_layers_defeated_by_nothing(layers: Seq<(SeekerKind, Seq<SeekerKind>)>)
    ensures
        layers_defeated(layers, CountermeasuresMask::spec_from_fn(|cm: Countermeasure| false))
            <==> forall|k: int| 0 <= k < layers.len() ==> (#[trigger] layers[k]).0 == SeekerKind::HomeOnJam,
    decreases layers.len(),
{
    let nothing = CountermeasuresMask::spec_from_fn(|cm: Countermeasure| false);
    if layers.len() > 0 {
        let rest = layers.drop_first();
        lemma_layers_defeated_by_nothing(rest);
        let seeker = layers[0].0;
        if seeker != SeekerKind::HomeOnJam {
            let d = seeker.spec_defeating_mask().spec_and(nothing);
            assert(!d.spec_any()) by {
                assert forall|cm: Countermeasure| !#[trigger] d.has(cm) by {
                    match cm {
                        Countermeasure::RadarJamming => {},
                        Countermeasure::CommsJamming => {},
                        Countermeasure::LaserDazzler => {},
                        Countermeasure::ChaffDecoy => {},
                        Countermeasure::FlareDecoy => {},
                        Countermeasure::ActiveDecoy => {},
                        Countermeasure::CutEngines => {},
                        Countermeasure::CutRadar => {},
                    }
                }
            }
            assert(seeker.spec_get_defeating(nothing) is None);
            assert(!layers_defeated(layers, nothing));
        } else {
            assert(layers_defeated(layers, nothing) == layers_defeated(rest, nothing));
            assert((forall|k: int| 0 <= k < layers.len() ==> (#[trigger] layers[k]).0 == SeekerKind::HomeOnJam)
                <==> (forall|k: int| 0 <= k < rest.len() ==> (#[trigger] rest[k]).0 == SeekerKind::HomeOnJam)) by {
                if forall|k: int| 0 <= k < rest.len() ==> (#[trigger] rest[k]).0 == SeekerKind::HomeOnJam {
                    assert forall|k: int| 0 <= k < layers.len() implies (#[trigger] layers[k]).0 == SeekerKind::HomeOnJam by {
                        if k > 0 {
                            assert(layers[k] == rest[k - 1]);
                        }
                    }
                }
                if forall|k: int| 0 <= k < layers.len() ==> (#[trigger] layers[k]).0 == SeekerKind::HomeOnJam {
                    assert forall|k: int| 0 <= k < rest.len() implies (#[trigger] rest[k]).0 == SeekerKind::HomeOnJam by {
                        assert(rest[k] == layers[k + 1]);
                    }
                }
            }
        }
    }
}

/// With no countermeasure at all, a strategy is defeated exactly when each
/// of its targeting seekers is home-on-jam: such a seeker sees nothing
/// without radar jamming, and every other seeker finds the target.
pub proof fn lemma_defeated_by_nothing(s: SeekerStrategy<SeekerKind>)
    ensures
        s.spec_is_defeated_by(CountermeasuresMask::spec_from_fn(|cm: Countermeasure| false))
            <==> forall|k: int| 0 <= k < layer_targets(seeker_layers(s.spec_items())).len()
                ==> #[trigger] layer_targets(seeker_layers(s.spec_items()))[k] == SeekerKind::HomeOnJam,
{
    let layers = seeker_layers(s.spec_items());
    lemma_layers_defeated_by_nothing(layers);
    assert forall|k: int| 0 <= k < layers.len() implies layer_targets(layers)[k] == (#[trigger] layers[k]).0 by {}
}

/// A single seeker is defeated by no countermeasure at all exactly when it
/// is home-on-jam.
pub proof fn lemma_single_defeated_by_nothing(k: SeekerKind)
    ensures
        layers_defeated(seeker_layers(seq![(k, SeekerMode::Targeting)]),
            CountermeasuresMask::spec_from_fn(|cm: Countermeasure| false)) <==> k == SeekerKind::HomeOnJam,
{
    let items = seq![(k, SeekerMode::Targeting)];
    lemma_layers_defeated_by_nothing(seeker_layers(items));
    assert(validation_run_end(items, 1) == 1);
    assert(items.subrange(1, 1) =~= Seq::<(SeekerKind, SeekerMode)>::empty());
    assert(seeker_layers_from(items, 1) =~= Seq::<(SeekerKind, Seq<SeekerKind>)>::empty());
    assert(seeker_layers(items)[0].0 == k);
    assert(seeker_layers(items).len() == 1);
}

/// With no countermeasure at all, a strategy of concrete seekers is
/// defeated exactly when each of its targeting seekers is of the
/// home-on-jam kind.
pub proof fn lemma_keys_defeated_by_nothing(s: SeekerStrategy<SeekerKey>)
    ensures
        layers_defeated(seeker_layers(seq![(s.primary.spec_seeker_kind(), SeekerMode::Targeting)] + s.spec_kind_secondaries()),
            CountermeasuresMask::spec_from_fn(|cm: Countermeasure| false))
            <==> forall|k: int| 0 <= k < layer_targets(seeker_layers(seq![(s.primary.spec_seeker_kind(), SeekerMode::Targeting)]
                + s.spec_kind_secondaries())).len()
                ==> #[trigger] layer_targets(seeker_layers(seq![(s.primary.spec_seeker_kind(), SeekerMode::Targeting)]
                    + s.spec_kind_secondaries()))[k] == SeekerKind::HomeOnJam,
{
    let layers = seeker_layers(seq![(s.primary.spec_seeker_kind(), SeekerMode::Targeting)] + s.spec_kind_secondaries());
    lemma_layers_defeated_by_nothing(layers);
    assert forall|k: int| 0 <= k < layers.len() implies layer_targets(layers)[k] == (#[trigger] layers[k]).0 by {}
}

/// The seekers of each kind, written out.
pub open spec fn spec_kind_keys(kind: SeekerKind) -> Seq<SeekerKey> {
    match kind {
        SeekerKind::Command => seq![SeekerKey::Command],
        SeekerKind::ActiveRadar => seq![SeekerKey::FixedActiveRadar, SeekerKey::SteerableActiveRadar, SeekerKey::SteerableExtendedActiveRadar],
        SeekerKind::SemiActiveRadar => seq![SeekerKey::FixedSemiActiveRadar],
        SeekerKind::AntiRadiation => seq![SeekerKey::FixedAntiRadiation],
        SeekerKind::HomeOnJam => seq![SeekerKey::FixedHomeOnJam],
        SeekerKind::ElectroOptical => seq![SeekerKey::ElectroOptical],
        SeekerKind::WakeHoming => seq![SeekerKey::WakeHoming],
    }
}

/// The seekers split by kind: each kind has some (active radar three, the
/// others one each), none twice, each of that kind; and each seeker is
/// listed under its own kind and under no other.
pub proof fn lemma_seeker_keys_partition(kind: SeekerKind, key: SeekerKey)
    ensures
        kind.spec_seeker_keys() == spec_kind_keys(kind),
        kind.spec_seeker_keys().len() == if kind == SeekerKind::ActiveRadar { 3int } else { 1int },
        kind.spec_seeker_keys().no_duplicates(),
        forall|i: int| 0 <= i < kind.spec_seeker_keys().len() ==> (#[trigger] kind.spec_seeker_keys()[i]).spec_seeker_kind() == kind,
        kind.spec_seeker_keys().contains(key) <==> key.spec_seeker_kind() == kind,
{
    reveal_with_fuel(Seq::filter, 10);
    let all = SeekerKey::spec_values();
    assert(all.drop_last().drop_last().drop_last().drop_last().drop_last().drop_last().drop_last().drop_last().drop_last()
        =~= Seq::<SeekerKey>::empty());
    assert(kind.spec_seeker_keys() =~= spec_kind_keys(kind));
    let l = spec_kind_keys(kind);
    if key.spec_seeker_kind() == kind {
        match key {
            SeekerKey::SteerableActiveRadar => assert(l[1] == key),
            SeekerKey::SteerableExtendedActiveRadar => assert(l[2] == key),
            _ => assert(l[0] == key),
        }
    }
}

impl SeekerStrategy<SeekerKind> {
    /// Whether `m` is a least way to defeat this strategy: a non-empty set of
    /// countermeasures that defeats it, no non-empty part of which does.
    pub open spec fn is_minimal_defeat(self, m: CountermeasuresMask) -> bool {
        &&& !m.spec_none()
        &&& self.spec_is_defeated_by(m)
        &&& forall|s: CountermeasuresMask| !s.spec_none() && s.is_subset_of(m) && s != m
            ==> !#[trigger] self.spec_is_defeated_by(s)
    }

    /// Whether `methods` lists exactly the least ways to defeat this strategy,
    /// ordered as `values_ordered` lists masks.
    pub open spec fn spec_is_methods(self, methods: Seq<CountermeasuresMask>) -> bool {
        &&& forall|j: int| 0 <= j < methods.len() ==> self.is_minimal_defeat(#[trigger] methods[j])
        &&& forall|m: CountermeasuresMask| #[trigger] self.is_minimal_defeat(m) ==> methods.contains(m)
        &&& forall|j: int, k: int| 0 <= j < k < methods.len() ==> mask_before(#[trigger] methods[j], #[trigger] methods[k])
    }

    /// The least ways to defeat this strategy, ordered as `values_ordered`
    /// lists masks.
    pub fn get_countermeasure_methods(&self) -> (r: Vec<CountermeasuresMask>)
        ensures
            self.spec_is_methods(r@),
    {
        let values = CountermeasuresMask::values_ordered();
        let mut list: Vec<CountermeasuresMask> = Vec::new();
        let ghost mut idx: Seq<int> = Seq::empty();
        let mut i: usize = 0;
        while i < values.len()
            invariant
                i <= values@.len(),
                forall|a: int| 0 <= a < values@.len() ==> !(#[trigger] values@[a]).spec_none(),
                forall|a: int, b: int| 0 <= a < b < values@.len() ==> mask_before(#[trigger] values@[a], #[trigger] values@[b]),
                forall|m: CountermeasuresMask| !m.spec_none() ==> #[trigger] values@.contains(m),
                list@.len() == idx.len(),
                forall|j: int| 0 <= j < idx.len() ==> 0 <= #[trigger] idx[j] < i && list@[j] == values@[idx[j]],
                forall|j: int, k: int| 0 <= j < k < idx.len() ==> #[trigger] idx[j] < #[trigger] idx[k],
                forall|j: int| 0 <= j < list@.len() ==> self.is_minimal_defeat(#[trigger] list@[j]),
                forall|a: int| 0 <= a < i && #[trigger] self.is_minimal_defeat(values@[a]) ==> list@.contains(values@[a]),
            decreases values.len() - i,
        {
            let m = values[i];
            let ghost old_list = list@;
            let covered = contains_strict_subset(&list, m);
            if covered {
                proof {
                    let j = choose|j: int| 0 <= j < list@.len() && (#[trigger] list@[j]).is_subset_of(m) && list@[j] != m;
                    assert(self.is_minimal_defeat(list@[j]));
                    assert(!self.is_minimal_defeat(m));
                }
            } else if self.is_defeated_by(m) {
                proof {
                    if !self.is_minimal_defeat(m) {
                        self.lemma_minimal_below(m);
                        let s = choose|s: CountermeasuresMask| self.is_minimal_defeat(s) && s.is_subset_of(m) && s != m;
                        lemma_subset_count(s, m);
                        assert(values@.contains(s));
                        let a = choose|a: int| 0 <= a < values@.len() && values@[a] == s;
                        lemma_mask_num_round_trip(s);
                        lemma_mask_num_round_trip(m);
                        assert(num_count(s.spec_to_num()) == s.spec_count_trues());
                        assert(num_count(m.spec_to_num()) == m.spec_count_trues());
                        if a > i {
                            assert(mask_before(values@[i as int], values@[a]));
                        }
                        assert(a < i);
                        assert(list@.contains(s));
                        let j = choose|j: int| 0 <= j < list@.len() && list@[j] == s;
                        assert(list@[j].is_subset_of(m) && list@[j] != m);
                    }
                }
                list.push(m);
                proof {
                    idx = idx.push(i as int);
                    assert(list@[list@.len() - 1] == m);
                }
            }
            proof {
                assert forall|a: int| 0 <= a < i + 1 && #[trigger] self.is_minimal_defeat(values@[a]) implies list@.contains(values@[a]) by {
                    if a < i {
                        assert(old_list.contains(values@[a]));
                        let j = choose|j: int| 0 <= j < old_list.len() && old_list[j] == values@[a];
                        assert(list@[j] == values@[a]);
                    } else {
                        assert(list@[list@.len() - 1] == values@[a]);
                    }
                }
            }
            i = i + 1;
        }
        proof {
            assert forall|m: CountermeasuresMask| #[trigger] self.is_minimal_defeat(m) implies list@.contains(m) by {
                assert(values@.contains(m));
                let a = choose|a: int| 0 <= a < values@.len() && values@[a] == m;
                assert(self.is_minimal_defeat(values@[a]));
            }
            assert forall|j: int, k: int| 0 <= j < k < list@.len() implies mask_before(#[trigger] list@[j], #[trigger] list@[k]) by {
                assert(idx[j] < idx[k]);
            }
        }
        list
    }

    /// Below every set of countermeasures that defeats the strategy lies a
    /// least one.
    pub proof fn lemma_minimal_below(self, m: CountermeasuresMask)
        requires
            !m.spec_none(),
            self.spec_is_defeated_by(m),
        ensures
            exists|s: CountermeasuresMask| #[trigger] self.is_minimal_defeat(s) && s.is_subset_of(m) && (s != m || self.is_minimal_defeat(m)),
            !self.is_minimal_defeat(m) ==> exists|s: CountermeasuresMask| #[trigger] self.is_minimal_defeat(s) && s.is_subset_of(m) && s != m,
        decreases m.spec_count_trues(),
    {
        if self.is_minimal_defeat(m) {
            assert(m.is_subset_of(m));
            assert(self.is_minimal_defeat(m) && m.is_subset_of(m));
        } else {
            let t = choose|t: CountermeasuresMask| !t.spec_none() && t.is_subset_of(m) && t != m && self.spec_is_defeated_by(t);
            lemma_subset_count(t, m);
            self.lemma_minimal_below(t);
            let s = choose|s: CountermeasuresMask| #[trigger] self.is_minimal_defeat(s) && s.is_subset_of(t) && (s != t || self.is_minimal_defeat(t));
            lemma_subset_count(s, t);
            assert(s.is_subset_of(m)) by {
                assert forall|cm: Countermeasure| #[trigger] s.has(cm) implies m.has(cm) by {
                    assert(t.has(cm));
                }
            }
            assert(s != m);
        }
    }
}

} // verus!

verus! {

/// Whether `s` is the strategy of `primary` followed by `secondaries`.
pub open spec fn strategy_is<S>(s: SeekerStrategy<S>, primary: S, secondaries: Seq<(S, SeekerMode)>) -> bool {
    s.primary == primary && s.secondaries@ == secondaries
}

/// Each kind of seeker paired with each mode.
pub open spec fn spec_kind_modes() -> Seq<(SeekerKind, SeekerMode)> {
    spec_cartesian(SeekerKind::spec_values(), seq![SeekerMode::Targeting, SeekerMode::Validation])
}

/// The strategies of one seeker, as (primary, secondaries).
pub open spec fn spec_possibilities1() -> Seq<(SeekerKind, Seq<(SeekerKind, SeekerMode)>)> {
    SeekerKind::spec_values().map_values(|k: SeekerKind| (k, Seq::<(SeekerKind, SeekerMode)>::empty()))
}

/// The strategies of two seekers, as (primary, secondaries).
pub open spec fn spec_possibilities2() -> Seq<(SeekerKind, Seq<(SeekerKind, SeekerMode)>)> {
    spec_cartesian(SeekerKind::spec_values(), spec_kind_modes()).map_values(
        |p: (SeekerKind, (SeekerKind, SeekerMode))| (p.0, seq![p.1]))
}

/// The strategies of three seekers, as (primary, secondaries).
pub open spec fn spec_possibilities3() -> Seq<(SeekerKind, Seq<(SeekerKind, SeekerMode)>)> {
    spec_cartesian(spec_cartesian(SeekerKind::spec_values(), spec_kind_modes()), spec_kind_modes()).map_values(
        |p: ((SeekerKind, (SeekerKind, SeekerMode)), (SeekerKind, SeekerMode))| (p.0.0, seq![p.0.1, p.1]))
}

/// Every strategy of one, two and three seekers, as (primary, secondaries).
pub open spec fn spec_possibilities() -> Seq<(SeekerKind, Seq<(SeekerKind, SeekerMode)>)> {
    spec_possibilities1() + spec_possibilities2() + spec_possibilities3()
}

fn kind_modes() -> (r: Vec<(SeekerKind, SeekerMode)>)
    ensures
        r@ == spec_kind_modes(),
{
    let modes = vec![SeekerMode::Targeting, SeekerMode::Validation];
    cartesian_product(&SeekerKind::values(), &modes)
}

impl SeekerStrategy<SeekerKind> {
    /// Every strategy of one seeker.
    pub fn possibilities1() -> (r: Vec<Self>)
        ensures
            r@.len() == spec_possibilities1().len(),
            forall|i: int| 0 <= i < r@.len() ==> strategy_is(#[trigger] r@[i], spec_possibilities1()[i].0, spec_possibilities1()[i].1),
    {
        let kinds = SeekerKind::values();
        let mut r: Vec<Self> = Vec::new();
        let mut i: usize = 0;
        while i < kinds.len()
            invariant
                kinds@ == SeekerKind::spec_values(),
                i <= kinds@.len(),
                r@.len() == i,
                forall|j: int| 0 <= j < i ==> strategy_is(#[trigger] r@[j], spec_possibilities1()[j].0, spec_possibilities1()[j].1),
            decreases kinds.len() - i,
        {
            let st = Self::new_single(kinds[i]);
            proof {
                assert(st.secondaries@ == Seq::<(SeekerKind, SeekerMode)>::empty());
                assert(spec_possibilities1()[i as int] == (kinds@[i as int], Seq::<(SeekerKind, SeekerMode)>::empty()));
            }
            r.push(st);
            i = i + 1;
        }
        r
    }

    /// Every strategy of two seekers, the second targeting or validating.
    pub fn possibilities2() -> (r: Vec<Self>)
        ensures
            r@.len() == spec_possibilities2().len(),
            forall|i: int| 0 <= i < r@.len() ==> strategy_is(#[trigger] r@[i], spec_possibilities2()[i].0, spec_possibilities2()[i].1),
    {
        let pairs = cartesian_product(&SeekerKind::values(), &kind_modes());
        let mut r: Vec<Self> = Vec::new();
        let mut i: usize = 0;
        while i < pairs.len()
            invariant
                pairs@ == spec_cartesian(SeekerKind::spec_values(), spec_kind_modes()),
                i <= pairs@.len(),
                r@.len() == i,
                forall|j: int| 0 <= j < i ==> strategy_is(#[trigger] r@[j], spec_possibilities2()[j].0, spec_possibilities2()[j].1),
            decreases pairs.len() - i,
        {
            let (primary, secondary) = pairs[i];
            let st = Self::new(primary, vec![secondary]);
            proof {
                assert(st.secondaries@ == seq![secondary]);
                assert(spec_possibilities2()[i as int] == (primary, seq![secondary]));
            }
            r.push(st);
            i = i + 1;
        }
        r
    }

    /// Every strategy of three seekers, the others targeting or validating.
    pub fn possibilities3() -> (r: Vec<Self>)
        ensures
            r@.len() == spec_possibilities3().len(),
            forall|i: int| 0 <= i < r@.len() ==> strategy_is(#[trigger] r@[i], spec_possibilities3()[i].0, spec_possibilities3()[i].1),
    {
        let km = kind_modes();
        let firsts = cartesian_product(&SeekerKind::values(), &km);
        let triples = cartesian_product(&firsts, &km);
        let mut r: Vec<Self> = Vec::new();
        let mut i: usize = 0;
        while i < triples.len()
            invariant
                triples@ == spec_cartesian(spec_cartesian(SeekerKind::spec_values(), spec_kind_modes()), spec_kind_modes()),
                i <= triples@.len(),
                r@.len() == i,
                forall|j: int| 0 <= j < i ==> strategy_is(#[trigger] r@[j], spec_possibilities3()[j].0, spec_possibilities3()[j].1),
            decreases triples.len() - i,
        {
            let ((primary, secondary), tertiary) = triples[i];
            let st = Self::new(primary, vec![secondary, tertiary]);
            proof {
                assert(st.secondaries@ == seq![secondary, tertiary]);
                assert(spec_possibilities3()[i as int] == (primary, seq![secondary, tertiary]));
            }
            r.push(st);
            i = i + 1;
        }
        r
    }

    /// Every strategy of one, two and three seekers.
    pub fn possibilities() -> (r: Vec<Self>)
        ensures
            r@.len() == spec_possibilities().len(),
            forall|i: int| 0 <= i < r@.len() ==> strategy_is(#[trigger] r@[i], spec_possibilities()[i].0, spec_possibilities()[i].1),
    {
        let mut r = Self::possibilities1();
        let mut b = Self::possibilities2();
        let mut c = Self::possibilities3();
        let ghost ra = r@;
        let ghost rb = b@;
        let ghost rc = c@;
        r.append(&mut b);
        r.append(&mut c);
        proof {
            assert(r@ == ra + rb + rc);
            assert forall|i: int| 0 <= i < r@.len() implies strategy_is(#[trigger] r@[i], spec_possibilities()[i].0, spec_possibilities()[i].1) by {
                if i < ra.len() {
                    assert(r@[i] == ra[i]);
                } else if i < ra.len() + rb.len() {
                    assert(r@[i] == rb[i - ra.len()]);
                } else {
                    assert(r@[i] == rc[i - ra.len() - rb.len()]);
                }
            }
        }
        r
    }
}

/// A seeker strategy with the least ways to defeat it.
#[derive(Debug, Clone)]
pub struct SeekerStrategyEntry {
    /// The strategy.
    pub seeker_strategy: SeekerStrategy<SeekerKind>,
    /// The least ways to defeat it.
    pub countermeasure_methods: Vec<CountermeasuresMask>,
}

impl SeekerStrategyEntry {
    /// The entry for `seeker_strategy`, with the least ways to defeat it.
    pub fn new(seeker_strategy: SeekerStrategy<SeekerKind>) -> (r: Self)
        ensures
            r.seeker_strategy == seeker_strategy,
            seeker_strategy.spec_is_methods(r.countermeasure_methods@),
    {
        let countermeasure_methods = seeker_strategy.get_countermeasure_methods();
        SeekerStrategyEntry { seeker_strategy, countermeasure_methods }
    }

    /// The entries of every reasonable strategy of one, two and three seekers,
    /// in the order of [`SeekerStrategy::possibilities`].
    pub fn get_entries() -> (r: Vec<Self>)
        ensures
            ({
                let chosen = spec_possibilities().filter(
                    |p: (SeekerKind, Seq<(SeekerKind, SeekerMode)>)| strategy_is_reasonable(p.0, p.1));
                &&& r@.len() == chosen.len()
                &&& forall|i: int| 0 <= i < r@.len() ==> strategy_is((#[trigger] r@[i]).seeker_strategy, chosen[i].0, chosen[i].1)
                &&& forall|i: int| 0 <= i < r@.len() ==> (#[trigger] r@[i]).seeker_strategy.spec_is_methods(r@[i].countermeasure_methods@)
            }),
    {
        let all = SeekerStrategy::<SeekerKind>::possibilities();
        let ghost pred = |p: (SeekerKind, Seq<(SeekerKind, SeekerMode)>)| strategy_is_reasonable(p.0, p.1);
        let mut r: Vec<Self> = Vec::new();
        let mut i: usize = 0;
        while i < all.len()
            invariant
                i <= all@.len(),
                all@.len() == spec_possibilities().len(),
                forall|j: int| 0 <= j < all@.len() ==> strategy_is(#[trigger] all@[j], spec_possibilities()[j].0, spec_possibilities()[j].1),
                r@.len() == spec_possibilities().take(i as int).filter(pred).len(),
                forall|j: int| 0 <= j < r@.len() ==> strategy_is((#[trigger] r@[j]).seeker_strategy,
                    spec_possibilities().take(i as int).filter(pred)[j].0, spec_possibilities().take(i as int).filter(pred)[j].1),
                forall|j: int| 0 <= j < r@.len() ==> (#[trigger] r@[j]).seeker_strategy.spec_is_methods(r@[j].countermeasure_methods@),
                pred == (|p: (SeekerKind, Seq<(SeekerKind, SeekerMode)>)| strategy_is_reasonable(p.0, p.1)),
            decreases all.len() - i,
        {
            proof {
                reveal_with_fuel(Seq::filter, 1);
                assert(spec_possibilities().take(i as int + 1).drop_last() == spec_possibilities().take(i as int));
                assert(strategy_is(all@[i as int], spec_possibilities()[i as int].0, spec_possibilities()[i as int].1));
            }
            if all[i].is_reasonable() {
                let strategy = all[i].duplicate();
                r.push(Self::new(strategy));
            }
            i = i + 1;
        }
        proof {
            assert(spec_possibilities().take(all@.len() as int) == spec_possibilities());
        }
        r
    }
}

} // verus!

verus! {

/// For each secondary seeker kind, the concrete seekers of that kind, each with
/// the secondary's mode.
pub open spec fn spec_full_choices(secondaries: Seq<(SeekerKind, SeekerMode)>) -> Seq<Seq<(SeekerKey, SeekerMode)>> {
    secondaries.map_values(|p: (SeekerKind, SeekerMode)| p.0.spec_seeker_keys().map_values(|k: SeekerKey| (k, p.1)))
}

impl SeekerStrategy<SeekerKind> {
    /// The concrete strategies of this strategy, as (primary, secondaries): each
    /// concrete primary with each pick of concrete secondaries, as
    /// `multi_cartesian_product` lists the picks.
    pub open spec fn spec_to_full(self) -> Seq<(SeekerKey, Seq<(SeekerKey, SeekerMode)>)> {
        spec_cartesian(self.primary.spec_seeker_keys(), spec_multi_product(spec_full_choices(self.secondaries@)))
    }

    /// The strategies of concrete seekers that this strategy stands for.
    pub fn to_full(&self) -> (r: Vec<SeekerStrategyFull>)
        ensures
            r@.len() == self.spec_to_full().len(),
            forall|i: int| 0 <= i < r@.len() ==> strategy_is(#[trigger] r@[i], self.spec_to_full()[i].0, self.spec_to_full()[i].1),
    {
        let primary = self.primary.seeker_keys();
        let mut lists: Vec<Vec<(SeekerKey, SeekerMode)>> = Vec::new();
        let mut i: usize = 0;
        while i < self.secondaries.len()
            invariant
                i <= self.secondaries@.len(),
                lists@.len() == i,
                forall|j: int| 0 <= j < i ==> (#[trigger] lists@[j])@ == spec_full_choices(self.secondaries@)[j],
            decreases self.secondaries.len() - i,
        {
            let (kind, mode) = self.secondaries[i];
            let keys = kind.seeker_keys();
            let mut list: Vec<(SeekerKey, SeekerMode)> = Vec::new();
            let mut k: usize = 0;
            while k < keys.len()
                invariant
                    k <= keys@.len(),
                    list@ == keys@.take(k as int).map_values(|key: SeekerKey| (key, mode)),
                decreases keys.len() - k,
            {
                list.push((keys[k], mode));
                proof {
                    assert(keys@.take(k as int + 1).map_values(|key: SeekerKey| (key, mode))
                        == keys@.take(k as int).map_values(|key: SeekerKey| (key, mode)).push((keys@[k as int], mode)));
                }
                k = k + 1;
            }
            proof {
                assert(keys@.take(k as int) == keys@);
            }
            lists.push(list);
            i = i + 1;
        }
        let ghost choices = spec_full_choices(self.secondaries@);
        proof {
            assert(lists@.map_values(|l: Vec<(SeekerKey, SeekerMode)>| l@) == choices);
        }
        let products = multi_cartesian_product(&lists);
        let indices = positions(products.len());
        let pairs = cartesian_product(&primary, &indices);
        let ghost full = self.spec_to_full();
        let ghost n = products@.len() as int;
        proof {
            assert(indices@.len() == n);
            assert(pairs@.len() == full.len());
        }
        let mut r: Vec<SeekerStrategyFull> = Vec::new();
        let mut j: usize = 0;
        while j < pairs.len()
            invariant
                j <= pairs@.len(),
                pairs@.len() == full.len(),
                pairs@ == spec_cartesian(primary@, indices@),
                full == spec_cartesian(primary@, spec_multi_product(choices)),
                n == products@.len(),
                n == spec_multi_product(choices).len(),
                indices@.len() == n,
                forall|t: int| 0 <= t < n ==> #[trigger] indices@[t] == t,
                forall|t: int| 0 <= t < n ==> (#[trigger] products@[t])@ == spec_multi_product(choices)[t],
                r@.len() == j,
                forall|t: int| 0 <= t < j ==> strategy_is(#[trigger] r@[t], full[t].0, full[t].1),
            decreases pairs.len() - j,
        {
            let (key, at) = pairs[j];
            proof {
                assert(n > 0);
                assert(0 <= (j as int) % n < n) by (nonlinear_arith)
                    requires n > 0;
                assert(at == indices@[(j as int) % n]);
            }
            let secondaries = copy_vec(&products[at]);
            r.push(SeekerStrategy::new(key, secondaries));
            j = j + 1;
        }
        r
    }
}

} // verus!

verus! {

impl SeekerStrategy<SeekerKey> {
    /// The kinds of the secondary seekers, with their modes.
    pub open spec fn spec_kind_secondaries(self) -> Seq<(SeekerKind, SeekerMode)> {
        self.secondaries@.map_values(|p: (SeekerKey, SeekerMode)| (p.0.spec_seeker_kind(), p.1))
    }

    /// The strategy of the kinds of these seekers.
    pub fn to_kinds(&self) -> (r: SeekerStrategy<SeekerKind>)
        ensures
            r.primary == self.primary.spec_seeker_kind(),
            r.secondaries@ == self.spec_kind_secondaries(),
    {
        let mut secondaries: Vec<(SeekerKind, SeekerMode)> = Vec::new();
        let mut i: usize = 0;
        while i < self.secondaries.len()
            invariant
                i <= self.secondaries@.len(),
                secondaries@ == self.secondaries@.take(i as int).map_values(
                    |p: (SeekerKey, SeekerMode)| (p.0.spec_seeker_kind(), p.1)),
            decreases self.secondaries.len() - i,
        {
            let (key, mode) = self.secondaries[i];
            secondaries.push((key.seeker_kind(), mode));
            proof {
                assert(self.secondaries@.take(i as int + 1).map_values(|p: (SeekerKey, SeekerMode)| (p.0.spec_seeker_kind(), p.1))
                    == self.secondaries@.take(i as int).map_values(|p: (SeekerKey, SeekerMode)| (p.0.spec_seeker_kind(), p.1))
                        .push((key.spec_seeker_kind(), mode)));
            }
            i = i + 1;
        }
        proof {
            assert(self.secondaries@.take(i as int) == self.secondaries@);
        }
        SeekerStrategy { primary: self.primary.seeker_kind(), secondaries }
    }

    /// Whether the strategy of the kinds of these seekers is worth considering.
    pub fn is_reasonable(&self) -> (r: bool)
        ensures
            r == strategy_is_reasonable(self.primary.spec_seeker_kind(), self.spec_kind_secondaries()),
    {
        self.to_kinds().is_reasonable()
    }

    /// Whether `countermeasures` defeat a missile with these seekers, judged by
    /// their kinds.
    pub fn is_defeated_by(&self, countermeasures: CountermeasuresMask) -> (r: bool)
        ensures
            r == layers_defeated(seeker_layers(seq![(self.primary.spec_seeker_kind(), SeekerMode::Targeting)]
                + self.spec_kind_secondaries()), countermeasures),
    {
        self.to_kinds().is_defeated_by(countermeasures)
    }

    /// The least ways to defeat a missile with these seekers, judged by their
    /// kinds.
    pub fn get_countermeasure_methods(&self) -> (r: Vec<CountermeasuresMask>)
        ensures
            exists|k: SeekerStrategy<SeekerKind>| k.primary == self.primary.spec_seeker_kind()
                && k.secondaries@ == self.spec_kind_secondaries() && #[trigger] k.spec_is_methods(r@),
    {
        let kinds = self.to_kinds();
        let r = kinds.get_countermeasure_methods();
        assert(kinds.spec_is_methods(r@));
        r
    }
}

} // verus!

verus! {

/// Whether the countermeasures `cms` defeat the targeting seeker `s` by
/// concealment alone: `s` is not home-on-jam (nor anti-radiation facing
/// radar jamming, which it homes on), some countermeasure of `cms` defeats
/// it, and every one that does is a concealment.
pub open spec fn defeated_by_concealment_only(s: SeekerKind, cms: CountermeasuresMask) -> bool {
    &&& s != SeekerKind::HomeOnJam
    &&& !(s == SeekerKind::AntiRadiation && cms.radar_jamming)
    &&& exists|cm: Countermeasure| s.spec_defeating_mask().has(cm) && #[trigger] cms.has(cm)
    &&& forall|cm: Countermeasure| s.spec_defeating_mask().has(cm) && #[trigger] cms.has(cm)
        ==> cm.spec_category() == CountermeasureCategory::Concealment
}

/// The decoys left after validation are among the decoys there were.
proof fn lemma_remaining_decoys_within(decoys: CountermeasuresMask, validators: Seq<SeekerKind>, jamming: CountermeasuresMask, cm: Countermeasure)
    ensures
        remaining_decoys(decoys, validators, jamming).has(cm) ==> decoys.has(cm),
    decreases validators.len(),
{
    if validators.len() > 0 {
        let v = validators[0];
        let next = if v.spec_get_defeating(jamming) is Some { decoys } else { decoys.spec_and(v.spec_defeating_mask()) };
        lemma_remaining_decoys_within(next, validators.drop_first(), jamming, cm);
        assert(next.has(cm) ==> decoys.has(cm)) by {
            match cm {
                Countermeasure::RadarJamming => {},
                Countermeasure::CommsJamming => {},
                Countermeasure::LaserDazzler => {},
                Countermeasure::ChaffDecoy => {},
                Countermeasure::FlareDecoy => {},
                Countermeasure::ActiveDecoy => {},
                Countermeasure::CutEngines => {},
                Countermeasure::CutRadar => {},
            }
        }
    }
}

/// A seeker that the countermeasures blind by concealment alone hands the
/// missile over to its next layer: when every targeting seeker of `layers`
/// is so blinded, the missile is defeated.
pub proof fn lemma_layers_defeated_by_concealment(layers: Seq<(SeekerKind, Seq<SeekerKind>)>, cms: CountermeasuresMask)
    requires
        forall|k: int| 0 <= k < layers.len() ==> defeated_by_concealment_only((#[trigger] layers[k]).0, cms),
    ensures
        layers_defeated(layers, cms),
    decreases layers.len(),
{
    if layers.len() > 0 {
        let rest = layers.drop_first();
        assert forall|k: int| 0 <= k < rest.len() implies defeated_by_concealment_only((#[trigger] rest[k]).0, cms) by {
            assert(rest[k] == layers[k + 1]);
        }
        lemma_layers_defeated_by_concealment(rest, cms);
        let seeker = layers[0].0;
        let validators = layers[0].1;
        assert(defeated_by_concealment_only(seeker, cms));
        let d = seeker.spec_defeating_mask().spec_and(cms);
        let c = choose|cm: Countermeasure| seeker.spec_defeating_mask().has(cm) && #[trigger] cms.has(cm);
        assert(d.has(c)) by {
            match c {
                Countermeasure::RadarJamming => {},
                Countermeasure::CommsJamming => {},
                Countermeasure::LaserDazzler => {},
                Countermeasure::ChaffDecoy => {},
                Countermeasure::FlareDecoy => {},
                Countermeasure::ActiveDecoy => {},
                Countermeasure::CutEngines => {},
                Countermeasure::CutRadar => {},
            }
        }
        assert(d.spec_any());
        assert(seeker.spec_get_defeating(cms) == Some(d));
        let jam = CountermeasuresMask::spec_from_fn(|cm: Countermeasure| cm.spec_category() == CountermeasureCategory::Jamming);
        let con = CountermeasuresMask::spec_from_fn(|cm: Countermeasure| cm.spec_category() == CountermeasureCategory::Concealment);
        let dec = CountermeasuresMask::spec_from_fn(|cm: Countermeasure| cm.spec_category() == CountermeasureCategory::Decoy);
        assert(c.spec_category() == CountermeasureCategory::Concealment);
        assert(d.spec_and(con).has(c)) by {
            match c {
                Countermeasure::CutEngines => {},
                Countermeasure::CutRadar => {},
                _ => {},
            }
        }
        assert(d.spec_and(con).spec_any());
        assert(!d.spec_and(jam).spec_any()) by {
            assert forall|cm: Countermeasure| !#[trigger] d.spec_and(jam).has(cm) by {
                match cm {
                    Countermeasure::RadarJamming => {},
                    Countermeasure::CommsJamming => {},
                    Countermeasure::LaserDazzler => {},
                    Countermeasure::ChaffDecoy => {},
                    Countermeasure::FlareDecoy => {},
                    Countermeasure::ActiveDecoy => {},
                    Countermeasure::CutEngines => {},
                    Countermeasure::CutRadar => {},
                }
            }
        }
        let jamming = cms.spec_and(jam);
        let decoys = remaining_decoys(d.spec_and(dec), validators, jamming);
        assert(!decoys.spec_any()) by {
            assert forall|cm: Countermeasure| !#[trigger] decoys.has(cm) by {
                lemma_remaining_decoys_within(d.spec_and(dec), validators, jamming, cm);
                match cm {
                    Countermeasure::RadarJamming => {},
                    Countermeasure::CommsJamming => {},
                    Countermeasure::LaserDazzler => {},
                    Countermeasure::ChaffDecoy => {},
                    Countermeasure::FlareDecoy => {},
                    Countermeasure::ActiveDecoy => {},
                    Countermeasure::CutEngines => {},
                    Countermeasure::CutRadar => {},
                }
            }
        }
    }
}

/// A strategy whose every targeting seeker the countermeasures blind by
/// concealment alone is defeated by them: each seeker, its target hidden
/// and no decoy to follow, hands over to the next, and with none left the
/// missile is lost.
pub proof fn lemma_defeated_by_concealment(s: SeekerStrategy<SeekerKind>, cms: CountermeasuresMask)
    requires
        forall|k: int| 0 <= k < layer_targets(seeker_layers(s.spec_items())).len()
            ==> defeated_by_concealment_only(#[trigger] layer_targets(seeker_layers(s.spec_items()))[k], cms),
    ensures
        s.spec_is_defeated_by(cms),
{
    let layers = seeker_layers(s.spec_items());
    assert forall|k: int| 0 <= k < layers.len() implies defeated_by_concealment_only((#[trigger] layers[k]).0, cms) by {
        assert(layer_targets(layers)[k] == layers[k].0);
    }
    lemma_layers_defeated_by_concealment(layers, cms);
}

/// A home-on-jam seeker may only lead a strategy or back up an active or
/// semi-active radar seeker: a strategy where one follows any other
/// targeting seeker is not reasonable.
pub proof fn lemma_home_on_jam_backs_up_radar(s: SeekerStrategy<SeekerKind>, k: int)
    requires
        0 < k < seeker_layers(s.spec_items()).len(),
        seeker_layers(s.spec_items())[k].0 == SeekerKind::HomeOnJam,
        seeker_layers(s.spec_items())[k - 1].0 != SeekerKind::ActiveRadar,
        seeker_layers(s.spec_items())[k - 1].0 != SeekerKind::SemiActiveRadar,
    ensures
        !s.spec_is_reasonable(),
{
    let layers = seeker_layers(s.spec_items());
    assert(s.spec_items() == seq![(s.primary, SeekerMode::Targeting)] + s.secondaries@);
    assert(!layer_is_reasonable(layers, k, s.primary));
}

} // verus!

verus! {

/// The rules of a reasonable strategy, each stated on its own: a strategy
/// breaking any of them is not reasonable. With `layers` its targeting
/// seekers each with the validating seekers after it: a wake-homing
/// primary has no backup; a command receiver backs nothing up; command
/// receivers, wake-homing and home-on-jam seekers take no validators; an
/// anti-radiation seeker takes only a wake-homing validator and an
/// electro-optical one only a command validator; active radar, semi-active
/// radar and home-on-jam seekers validate nothing; no seeker validates one
/// of its own kind; no kind validates a layer twice; the strategy is not a
/// home-on-jam seeker alone; and no two targeting seekers repeat a kind or
/// pair active with semi-active radar or anti-radiation with home-on-jam.
pub proof fn lemma_reasonable_rules(s: SeekerStrategy<SeekerKind>, k: int, x: SeekerKind)
    requires
        0 <= k < seeker_layers(s.spec_items()).len(),
    ensures
        ({
            let layers = seeker_layers(s.spec_items());
            let seeker = layers[k].0;
            let validators = layers[k].1;
            let targets = layer_targets(layers);
            &&& (s.primary == SeekerKind::WakeHoming && k > 0 ==> !s.spec_is_reasonable())
            &&& (seeker == SeekerKind::Command && k > 0 ==> !s.spec_is_reasonable())
            &&& ((seeker == SeekerKind::Command || seeker == SeekerKind::WakeHoming || seeker == SeekerKind::HomeOnJam)
                && validators.len() > 0 ==> !s.spec_is_reasonable())
            &&& (seeker == SeekerKind::AntiRadiation && validators.len() > 0 && validators != seq![SeekerKind::WakeHoming]
                ==> !s.spec_is_reasonable())
            &&& (seeker == SeekerKind::ElectroOptical && validators.len() > 0 && validators != seq![SeekerKind::Command]
                ==> !s.spec_is_reasonable())
            &&& ((x == SeekerKind::ActiveRadar || x == SeekerKind::SemiActiveRadar || x == SeekerKind::HomeOnJam)
                && validators.contains(x) ==> !s.spec_is_reasonable())
            &&& (validators.contains(seeker) ==> !s.spec_is_reasonable())
            &&& (!validators.no_duplicates() ==> !s.spec_is_reasonable())
            &&& (targets == seq![SeekerKind::HomeOnJam] ==> !s.spec_is_reasonable())
            &&& (!targets.no_duplicates() ==> !s.spec_is_reasonable())
            &&& (targets.contains(SeekerKind::ActiveRadar) && targets.contains(SeekerKind::SemiActiveRadar) ==> !s.spec_is_reasonable())
            &&& (targets.contains(SeekerKind::AntiRadiation) && targets.contains(SeekerKind::HomeOnJam) ==> !s.spec_is_reasonable())
        }),
{
    let layers = seeker_layers(s.spec_items());
    assert(s.spec_items() == seq![(s.primary, SeekerMode::Targeting)] + s.secondaries@);
    if !layer_is_reasonable(layers, k, s.primary) {
        assert(!layers_are_reasonable(layers, s.primary));
    }
}

/// The primary seeker of a strategy leads its first layer.
pub proof fn lemma_first_layer_is_primary(s: SeekerStrategy<SeekerKind>)
    ensures
        seeker_layers(s.spec_items()).len() > 0,
        seeker_layers(s.spec_items())[0].0 == s.primary,
{
    let items = s.spec_items();
    assert(items[0] == (s.primary, SeekerMode::Targeting));
    lemma_validation_run_end_bounds(items, 1);
}

} // verus!

verus! {

/// The rules that layer `k` of `layers`, in a strategy led by `primary`,
/// must keep, each written out: no backup behind a wake-homing primary; no
/// command receiver as a backup; no validators for command receivers,
/// wake-homing or home-on-jam seekers; a home-on-jam backup only behind
/// active or semi-active radar; only a wake-homing validator for an
/// anti-radiation seeker and only a command validator for an
/// electro-optical one; no active radar, semi-active radar or home-on-jam
/// validator; no validator of the layer's own kind; no kind validating
/// twice.
pub open spec fn layer_rules_hold(layers: Seq<(SeekerKind, Seq<SeekerKind>)>, k: int, primary: SeekerKind) -> bool {
    let seeker = layers[k].0;
    let validators = layers[k].1;
    &&& !(primary == SeekerKind::WakeHoming && k > 0)
    &&& !(seeker == SeekerKind::Command && k > 0)
    &&& !((seeker == SeekerKind::Command || seeker == SeekerKind::WakeHoming || seeker == SeekerKind::HomeOnJam)
        && validators.len() > 0)
    &&& !(seeker == SeekerKind::HomeOnJam && k > 0 && layers[k - 1].0 != SeekerKind::ActiveRadar
        && layers[k - 1].0 != SeekerKind::SemiActiveRadar)
    &&& !(seeker == SeekerKind::AntiRadiation && validators.len() > 0 && validators != seq![SeekerKind::WakeHoming])
    &&& !(seeker == SeekerKind::ElectroOptical && validators.len() > 0 && validators != seq![SeekerKind::Command])
    &&& !validators.contains(SeekerKind::ActiveRadar)
    &&& !validators.contains(SeekerKind::SemiActiveRadar)
    &&& !validators.contains(SeekerKind::HomeOnJam)
    &&& !validators.contains(seeker)
    &&& validators.no_duplicates()
}

/// A strategy is reasonable exactly when every layer keeps its rules (see
/// [`layer_rules_hold`]), it is not a home-on-jam seeker alone, and no two
/// targeting seekers repeat a kind or pair active with semi-active radar or
/// anti-radiation with home-on-jam.
pub proof fn lemma_reasonable_iff_rules(s: SeekerStrategy<SeekerKind>)
    ensures
        s.spec_is_reasonable() <==> ({
            let layers = seeker_layers(s.spec_items());
            let targets = layer_targets(layers);
            &&& forall|k: int| 0 <= k < layers.len() ==> #[trigger] layer_rules_hold(layers, k, s.primary)
            &&& targets != seq![SeekerKind::HomeOnJam]
            &&& targets.no_duplicates()
            &&& !(targets.contains(SeekerKind::ActiveRadar) && targets.contains(SeekerKind::SemiActiveRadar))
            &&& !(targets.contains(SeekerKind::AntiRadiation) && targets.contains(SeekerKind::HomeOnJam))
        }),
{
    let layers = seeker_layers(s.spec_items());
    assert(s.spec_items() == seq![(s.primary, SeekerMode::Targeting)] + s.secondaries@);
    assert forall|k: int| 0 <= k < layers.len() implies
        layer_is_reasonable(layers, k, s.primary) == #[trigger] layer_rules_hold(layers, k, s.primary) by {
    }
    if forall|k: int| 0 <= k < layers.len() ==> #[trigger] layer_rules_hold(layers, k, s.primary) {
        assert forall|k: int| 0 <= k < layers.len() implies #[trigger] layer_is_reasonable(layers, k, s.primary) by {
            assert(layer_rules_hold(layers, k, s.primary));
        }
    }
    if forall|k: int| 0 <= k < layers.len() ==> #[trigger] layer_is_reasonable(layers, k, s.primary) {
        assert forall|k: int| 0 <= k < layers.len() implies #[trigger] layer_rules_hold(layers, k, s.primary) by {
            assert(layer_is_reasonable(layers, k, s.primary));
        }
    }
}

} // verus!

verus! {

/// Whether some countermeasure of `cms` of the category `cat` defeats the
/// seeker `s`.
pub open spec fn defeats_by(s: SeekerKind, cms: CountermeasuresMask, cat: CountermeasureCategory) -> bool {
    exists|cm: Countermeasure| s.spec_defeating_mask().has(cm) && #[trigger] cms.has(cm) && cm.spec_category() == cat
}

/// Whether the validating seeker `v` is jammed by `cms` (and so validates
/// nothing): some jamming of `cms` defeats it, unless it homes on radar
/// jamming that `cms` holds.
pub open spec fn validator_jammed(v: SeekerKind, cms: CountermeasuresMask) -> bool {
    &&& !((v == SeekerKind::AntiRadiation || v == SeekerKind::HomeOnJam) && cms.radar_jamming)
    &&& defeats_by(v, cms, CountermeasureCategory::Jamming)
}

/// Whether the decoy `cm` fools every validator of `validators`: each is
/// jammed or is itself fooled by it.
pub open spec fn decoy_fools_validators(cm: Countermeasure, validators: Seq<SeekerKind>, cms: CountermeasuresMask) -> bool {
    forall|i: int| 0 <= i < validators.len() ==> validator_jammed(#[trigger] validators[i], cms)
        || validators[i].spec_defeating_mask().has(cm)
}

/// A validator is jammed exactly when the jamming of `cms` defeats it.
proof fn lemma_validator_jammed(v: SeekerKind, cms: CountermeasuresMask)
    ensures
        v.spec_get_defeating(cms.spec_and(CountermeasuresMask::spec_from_fn(
            |cm: Countermeasure| cm.spec_category() == CountermeasureCategory::Jamming))) is Some <==> validator_jammed(v, cms),
{
    let jam = cms.spec_and(CountermeasuresMask::spec_from_fn(|cm: Countermeasure| cm.spec_category() == CountermeasureCategory::Jamming));
    let d = v.spec_defeating_mask().spec_and(jam);
    if d.spec_any() {
        let cm = choose|cm: Countermeasure| #[trigger] d.has(cm);
        assert(v.spec_defeating_mask().has(cm) && cms.has(cm) && cm.spec_category() == CountermeasureCategory::Jamming) by {
                match cm {
                    Countermeasure::RadarJamming => {},
                    Countermeasure::CommsJamming => {},
                    Countermeasure::LaserDazzler => {},
                    Countermeasure::ChaffDecoy => {},
                    Countermeasure::FlareDecoy => {},
                    Countermeasure::ActiveDecoy => {},
                    Countermeasure::CutEngines => {},
                    Countermeasure::CutRadar => {},
                }
        }
    }
    if defeats_by(v, cms, CountermeasureCategory::Jamming) {
        let cm = choose|cm: Countermeasure| v.spec_defeating_mask().has(cm) && #[trigger] cms.has(cm)
            && cm.spec_category() == CountermeasureCategory::Jamming;
        assert(d.has(cm)) by {
                match cm {
                    Countermeasure::RadarJamming => {},
                    Countermeasure::CommsJamming => {},
                    Countermeasure::LaserDazzler => {},
                    Countermeasure::ChaffDecoy => {},
                    Countermeasure::FlareDecoy => {},
                    Countermeasure::ActiveDecoy => {},
                    Countermeasure::CutEngines => {},
                    Countermeasure::CutRadar => {},
                }
        }
    }
}

/// The decoys left after validation are exactly those of `decoys` that
/// fool every validator not itself jammed.
pub proof fn lemma_remaining_decoys(decoys: CountermeasuresMask, validators: Seq<SeekerKind>, cms: CountermeasuresMask, cm: Countermeasure)
    ensures
        remaining_decoys(decoys, validators, cms.spec_and(CountermeasuresMask::spec_from_fn(
            |c: Countermeasure| c.spec_category() == CountermeasureCategory::Jamming))).has(cm)
            <==> decoys.has(cm) && decoy_fools_validators(cm, validators, cms),
    decreases validators.len(),
{
    let jam = cms.spec_and(CountermeasuresMask::spec_from_fn(|c: Countermeasure| c.spec_category() == CountermeasureCategory::Jamming));
    if validators.len() > 0 {
        let v = validators[0];
        let next = if v.spec_get_defeating(jam) is Some { decoys } else { decoys.spec_and(v.spec_defeating_mask()) };
        lemma_remaining_decoys(next, validators.drop_first(), cms, cm);
        lemma_validator_jammed(v, cms);
        assert(next.has(cm) <==> decoys.has(cm) && (validator_jammed(v, cms) || v.spec_defeating_mask().has(cm))) by {
                match cm {
                    Countermeasure::RadarJamming => {},
                    Countermeasure::CommsJamming => {},
                    Countermeasure::LaserDazzler => {},
                    Countermeasure::ChaffDecoy => {},
                    Countermeasure::FlareDecoy => {},
                    Countermeasure::ActiveDecoy => {},
                    Countermeasure::CutEngines => {},
                    Countermeasure::CutRadar => {},
                }
        }
        assert(decoy_fools_validators(cm, validators, cms) <==> (validator_jammed(v, cms) || v.spec_defeating_mask().has(cm))
            && decoy_fools_validators(cm, validators.drop_first(), cms)) by {
            if decoy_fools_validators(cm, validators, cms) {
                assert forall|i: int| 0 <= i < validators.drop_first().len() implies validator_jammed(#[trigger] validators.drop_first()[i], cms)
                    || validators.drop_first()[i].spec_defeating_mask().has(cm) by {
                    assert(validators.drop_first()[i] == validators[i + 1]);
                }
            }
            if (validator_jammed(v, cms) || v.spec_defeating_mask().has(cm)) && decoy_fools_validators(cm, validators.drop_first(), cms) {
                assert forall|i: int| 0 <= i < validators.len() implies validator_jammed(#[trigger] validators[i], cms)
                    || validators[i].spec_defeating_mask().has(cm) by {
                    if i > 0 {
                        assert(validators[i] == validators.drop_first()[i - 1]);
                    }
                }
            }
        }
    }
}

/// How the first targeting seeker of a missile decides the contest with
/// the countermeasures `cms`. A home-on-jam seeker finds the target when
/// `cms` jams radar, and else hands over to the next layer. For any other
/// seeker (an anti-radiation one homing on radar jamming finds the target):
/// if nothing in `cms` defeats it, it finds the target; if some jamming
/// does, it hands over; else if some decoy of `cms` that defeats it fools
/// all its validators, the missile is defeated; else, with every decoy seen
/// through, a concealment that defeats it hands over, and without one it
/// finds the target.
pub proof fn lemma_first_layer_decides(layers: Seq<(SeekerKind, Seq<SeekerKind>)>, cms: CountermeasuresMask)
    requires
        layers.len() > 0,
    ensures
        ({
            let seeker = layers[0].0;
            let validators = layers[0].1;
            let rest = layers.drop_first();
            let homes = (seeker == SeekerKind::AntiRadiation || seeker == SeekerKind::HomeOnJam) && cms.radar_jamming;
            let decoyed = exists|cm: Countermeasure| seeker.spec_defeating_mask().has(cm) && #[trigger] cms.has(cm)
                && cm.spec_category() == CountermeasureCategory::Decoy && decoy_fools_validators(cm, validators, cms);
            &&& (seeker == SeekerKind::HomeOnJam ==> (layers_defeated(layers, cms)
                <==> !cms.radar_jamming && layers_defeated(rest, cms)))
            &&& (seeker != SeekerKind::HomeOnJam && homes ==> !layers_defeated(layers, cms))
            &&& (seeker != SeekerKind::HomeOnJam && !homes ==> {
                &&& (!(exists|cm: Countermeasure| seeker.spec_defeating_mask().has(cm) && #[trigger] cms.has(cm))
                    ==> !layers_defeated(layers, cms))
                &&& (defeats_by(seeker, cms, CountermeasureCategory::Jamming)
                    ==> (layers_defeated(layers, cms) <==> layers_defeated(rest, cms)))
                &&& (!defeats_by(seeker, cms, CountermeasureCategory::Jamming) && decoyed ==> layers_defeated(layers, cms))
                &&& (!defeats_by(seeker, cms, CountermeasureCategory::Jamming) && !decoyed
                    && defeats_by(seeker, cms, CountermeasureCategory::Concealment)
                    ==> (layers_defeated(layers, cms) <==> layers_defeated(rest, cms)))
                &&& (!defeats_by(seeker, cms, CountermeasureCategory::Jamming) && !decoyed
                    && !defeats_by(seeker, cms, CountermeasureCategory::Concealment) ==> !layers_defeated(layers, cms))
            })
        }),
{
    let seeker = layers[0].0;
    let validators = layers[0].1;
    let mask = seeker.spec_defeating_mask();
    let d = mask.spec_and(cms);
    let jamcat = CountermeasuresMask::spec_from_fn(|c: Countermeasure| c.spec_category() == CountermeasureCategory::Jamming);
    let concat = CountermeasuresMask::spec_from_fn(|c: Countermeasure| c.spec_category() == CountermeasureCategory::Concealment);
    let deccat = CountermeasuresMask::spec_from_fn(|c: Countermeasure| c.spec_category() == CountermeasureCategory::Decoy);
    let jamming = cms.spec_and(jamcat);
    let decoys = remaining_decoys(d.spec_and(deccat), validators, jamming);
    // what the defeating set holds, category by category
    assert forall|cm: Countermeasure| #[trigger] d.has(cm) == (mask.has(cm) && cms.has(cm)) by {
                match cm {
                    Countermeasure::RadarJamming => {},
                    Countermeasure::CommsJamming => {},
                    Countermeasure::LaserDazzler => {},
                    Countermeasure::ChaffDecoy => {},
                    Countermeasure::FlareDecoy => {},
                    Countermeasure::ActiveDecoy => {},
                    Countermeasure::CutEngines => {},
                    Countermeasure::CutRadar => {},
                }
    }
    assert(d.spec_any() <==> exists|cm: Countermeasure| mask.has(cm) && #[trigger] cms.has(cm)) by {
        if d.spec_any() {
            let cm = choose|cm: Countermeasure| #[trigger] d.has(cm);
            assert(mask.has(cm) && cms.has(cm));
        }
        if exists|cm: Countermeasure| mask.has(cm) && #[trigger] cms.has(cm) {
            let cm = choose|cm: Countermeasure| mask.has(cm) && #[trigger] cms.has(cm);
            assert(d.has(cm));
        }
    }
    assert(d.spec_and(jamcat).spec_any() <==> defeats_by(seeker, cms, CountermeasureCategory::Jamming)) by {
        if d.spec_and(jamcat).spec_any() {
            let cm = choose|cm: Countermeasure| #[trigger] d.spec_and(jamcat).has(cm);
            assert(mask.has(cm) && cms.has(cm) && cm.spec_category() == CountermeasureCategory::Jamming) by {
                match cm {
                    Countermeasure::RadarJamming => {},
                    Countermeasure::CommsJamming => {},
                    Countermeasure::LaserDazzler => {},
                    Countermeasure::ChaffDecoy => {},
                    Countermeasure::FlareDecoy => {},
                    Countermeasure::ActiveDecoy => {},
                    Countermeasure::CutEngines => {},
                    Countermeasure::CutRadar => {},
                }
            }
        }
        if defeats_by(seeker, cms, CountermeasureCategory::Jamming) {
            let cm = choose|cm: Countermeasure| mask.has(cm) && #[trigger] cms.has(cm) && cm.spec_category() == CountermeasureCategory::Jamming;
            assert(d.spec_and(jamcat).has(cm)) by {
                match cm {
                    Countermeasure::RadarJamming => {},
                    Countermeasure::CommsJamming => {},
                    Countermeasure::LaserDazzler => {},
                    Countermeasure::ChaffDecoy => {},
                    Countermeasure::FlareDecoy => {},
                    Countermeasure::ActiveDecoy => {},
                    Countermeasure::CutEngines => {},
                    Countermeasure::CutRadar => {},
                }
            }
        }
    }
    assert(d.spec_and(concat).spec_any() <==> defeats_by(seeker, cms, CountermeasureCategory::Concealment)) by {
        if d.spec_and(concat).spec_any() {
            let cm = choose|cm: Countermeasure| #[trigger] d.spec_and(concat).has(cm);
            assert(mask.has(cm) && cms.has(cm) && cm.spec_category() == CountermeasureCategory::Concealment) by {
                match cm {
                    Countermeasure::RadarJamming => {},
                    Countermeasure::CommsJamming => {},
                    Countermeasure::LaserDazzler => {},
                    Countermeasure::ChaffDecoy => {},
                    Countermeasure::FlareDecoy => {},
                    Countermeasure::ActiveDecoy => {},
                    Countermeasure::CutEngines => {},
                    Countermeasure::CutRadar => {},
                }
            }
        }
        if defeats_by(seeker, cms, CountermeasureCategory::Concealment) {
            let cm = choose|cm: Countermeasure| mask.has(cm) && #[trigger] cms.has(cm) && cm.spec_category() == CountermeasureCategory::Concealment;
            assert(d.spec_and(concat).has(cm)) by {
                match cm {
                    Countermeasure::RadarJamming => {},
                    Countermeasure::CommsJamming => {},
                    Countermeasure::LaserDazzler => {},
                    Countermeasure::ChaffDecoy => {},
                    Countermeasure::FlareDecoy => {},
                    Countermeasure::ActiveDecoy => {},
                    Countermeasure::CutEngines => {},
                    Countermeasure::CutRadar => {},
                }
            }
        }
    }
    let decoyed = exists|cm: Countermeasure| mask.has(cm) && #[trigger] cms.has(cm)
        && cm.spec_category() == CountermeasureCategory::Decoy && decoy_fools_validators(cm, validators, cms);
    assert(decoys.spec_any() <==> decoyed) by {
        if decoys.spec_any() {
            let cm = choose|cm: Countermeasure| #[trigger] decoys.has(cm);
            lemma_remaining_decoys(d.spec_and(deccat), validators, cms, cm);
            assert(mask.has(cm) && cms.has(cm) && cm.spec_category() == CountermeasureCategory::Decoy) by {
                match cm {
                    Countermeasure::RadarJamming => {},
                    Countermeasure::CommsJamming => {},
                    Countermeasure::LaserDazzler => {},
                    Countermeasure::ChaffDecoy => {},
                    Countermeasure::FlareDecoy => {},
                    Countermeasure::ActiveDecoy => {},
                    Countermeasure::CutEngines => {},
                    Countermeasure::CutRadar => {},
                }
            }
        }
        if decoyed {
            let cm = choose|cm: Countermeasure| mask.has(cm) && #[trigger] cms.has(cm)
                && cm.spec_category() == CountermeasureCategory::Decoy && decoy_fools_validators(cm, validators, cms);
            lemma_remaining_decoys(d.spec_and(deccat), validators, cms, cm);
            assert(d.spec_and(deccat).has(cm)) by {
                match cm {
                    Countermeasure::RadarJamming => {},
                    Countermeasure::CommsJamming => {},
                    Countermeasure::LaserDazzler => {},
                    Countermeasure::ChaffDecoy => {},
                    Countermeasure::FlareDecoy => {},
                    Countermeasure::ActiveDecoy => {},
                    Countermeasure::CutEngines => {},
                    Countermeasure::CutRadar => {},
                }
            }
            assert(decoys.has(cm));
        }
    }
}

} // verus!
