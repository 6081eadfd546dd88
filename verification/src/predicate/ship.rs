use vstd::prelude::*;
use crate::predicate::tokens::{Token, TokenView, Symbol, tokens_view, tokenize, spec_tokenize};
use crate::predicate::{is_symbol_at, ident_at, symbol_is, ident_str, ShipEquipmentPredicate, WeaponFamilyPredicate,
    WeaponFamilyPredicateView, MultiPredicate, MultiPredicateView, MissileEquipmentPredicate,
    spec_parse_weapon_family_predicate};
use crate::data::components::SigType;
use crate::data::hulls::HullKey;
use crate::data::missiles::bodies::MissileBodyKey;
use crate::model::{DistanceRealm, WeaponFamily, MissileEquipmentSummary};
use crate::model::equipment::{ShipEquipmentSummary, sig_type_items, weapon_family_items};
use crate::text::{str_eq, parse_usize, spec_parse_usize};

verus! {

// Signature types and hulls by name.

impl SigType {
    /// The signature type a word names: `electro_optical`, `radar` or
    /// `comms`.
    pub open spec fn spec_from_keyword(k: Seq<char>) -> Option<SigType> {
        if k == "electro_optical"@ {
            Some(SigType::ElectroOptical)
        } else if k == "radar"@ {
            Some(SigType::Radar)
        } else if k == "comms"@ {
            Some(SigType::Comms)
        } else {
            None
        }
    }

    /// The signature type a word names.
    pub fn from_keyword(k: &str) -> (r: Option<SigType>)
        ensures
            r == Self::spec_from_keyword(k@),
    {
        if str_eq(k, "electro_optical") {
            Some(SigType::ElectroOptical)
        } else if str_eq(k, "radar") {
            Some(SigType::Radar)
        } else if str_eq(k, "comms") {
            Some(SigType::Comms)
        } else {
            None
        }
    }
}

impl HullKey {
    /// The hull a word names: its class name or what it is (`sprinter`,
    /// `raines`, `keystone`, `vauxhall`, `axford`, `solomon`, `ferryman` or
    /// `shuttle`, `draugr` or `tugboat`, `flathead` or `cargo_feeder`,
    /// `ocello`, `marauder` or `bulk_freighter`, `moorline` or
    /// `container_liner`).
    pub open spec fn spec_from_keyword(k: Seq<char>) -> Option<HullKey> {
        if k == "sprinter"@ {
            Some(HullKey::SprinterCorvette)
        } else if k == "raines"@ {
            Some(HullKey::RainesFrigate)
        } else if k == "keystone"@ {
            Some(HullKey::KeystoneDestroyer)
        } else if k == "vauxhall"@ {
            Some(HullKey::VauxhallLightCruiser)
        } else if k == "axford"@ {
            Some(HullKey::AxfordHeavyCruiser)
        } else if k == "solomon"@ {
            Some(HullKey::SolomonBattleship)
        } else if k == "ferryman"@ || k == "shuttle"@ {
            Some(HullKey::ShuttleClipper)
        } else if k == "draugr"@ || k == "tugboat"@ {
            Some(HullKey::TugboatClipper)
        } else if k == "flathead"@ || k == "cargo_feeder"@ {
            Some(HullKey::CargoFeederMonitor)
        } else if k == "ocello"@ {
            Some(HullKey::OcelloCommandCruiser)
        } else if k == "marauder"@ || k == "bulk_freighter"@ {
            Some(HullKey::BulkFreighterLineShip)
        } else if k == "moorline"@ || k == "container_liner"@ {
            Some(HullKey::ContainerLinerLineShip)
        } else {
            None
        }
    }

    /// The hull a word names.
    pub fn from_keyword(k: &str) -> (r: Option<HullKey>)
        ensures
            r == Self::spec_from_keyword(k@),
    {
        if str_eq(k, "sprinter") {
            Some(HullKey::SprinterCorvette)
        } else if str_eq(k, "raines") {
            Some(HullKey::RainesFrigate)
        } else if str_eq(k, "keystone") {
            Some(HullKey::KeystoneDestroyer)
        } else if str_eq(k, "vauxhall") {
            Some(HullKey::VauxhallLightCruiser)
        } else if str_eq(k, "axford") {
            Some(HullKey::AxfordHeavyCruiser)
        } else if str_eq(k, "solomon") {
            Some(HullKey::SolomonBattleship)
        } else if str_eq(k, "ferryman") || str_eq(k, "shuttle") {
            Some(HullKey::ShuttleClipper)
        } else if str_eq(k, "draugr") || str_eq(k, "tugboat") {
            Some(HullKey::TugboatClipper)
        } else if str_eq(k, "flathead") || str_eq(k, "cargo_feeder") {
            Some(HullKey::CargoFeederMonitor)
        } else if str_eq(k, "ocello") {
            Some(HullKey::OcelloCommandCruiser)
        } else if str_eq(k, "marauder") || str_eq(k, "bulk_freighter") {
            Some(HullKey::BulkFreighterLineShip)
        } else if str_eq(k, "moorline") || str_eq(k, "container_liner") {
            Some(HullKey::ContainerLinerLineShip)
        } else {
            None
        }
    }
}

/// `/` and a signature type at `pos`, if both are there; else nothing, and
/// `pos` again.
pub open spec fn spec_parse_opt_sig_type(ts: Seq<TokenView>, pos: int) -> (Option<SigType>, int) {
    if is_symbol_at(ts, pos, Symbol::Slash) && ident_at(ts, pos + 1) is Some
        && SigType::spec_from_keyword(ident_at(ts, pos + 1)->Some_0) is Some {
        (SigType::spec_from_keyword(ident_at(ts, pos + 1)->Some_0), pos + 2)
    } else {
        (None, pos)
    }
}

/// Reads `/` and a signature type, if both are there.
fn parse_opt_sig_type(tokens: &Vec<Token>, pos: usize) -> (r: (Option<SigType>, usize))
    ensures
        r.0 == spec_parse_opt_sig_type(tokens_view(tokens@), pos as int).0,
        r.1 == spec_parse_opt_sig_type(tokens_view(tokens@), pos as int).1,
{
    if symbol_is(tokens, pos, Symbol::Slash) {
        if let Some(k) = ident_str(tokens, pos + 1) {
            if let Some(t) = SigType::from_keyword(k) {
                return (Some(t), pos + 2);
            }
        }
    }
    (None, pos)
}

/// A number range `a..b` at `pos`: two decimal numbers around `..`; and the
/// position after it.
pub open spec fn spec_parse_range(ts: Seq<TokenView>, pos: int) -> Option<((usize, usize), int)> {
    if ident_at(ts, pos) is Some && spec_parse_usize(ident_at(ts, pos)->Some_0) is Some
        && is_symbol_at(ts, pos + 1, Symbol::Ellipsis)
        && ident_at(ts, pos + 2) is Some && spec_parse_usize(ident_at(ts, pos + 2)->Some_0) is Some {
        Some(((spec_parse_usize(ident_at(ts, pos)->Some_0)->Some_0, spec_parse_usize(ident_at(ts, pos + 2)->Some_0)->Some_0), pos + 3))
    } else {
        None
    }
}

/// Reads a number range `a..b`.
fn parse_range(tokens: &Vec<Token>, pos: usize) -> (r: Option<((usize, usize), usize)>)
    ensures
        match spec_parse_range(tokens_view(tokens@), pos as int) {
            Some((v, e)) => r matches Some((u, f)) && u == v && f == e,
            None => r is None,
        },
{
    let a = match ident_str(tokens, pos) {
        Some(k) => match parse_usize(k) {
            Some(a) => a,
            None => return None,
        },
        None => return None,
    };
    if !symbol_is(tokens, pos + 1, Symbol::Ellipsis) {
        return None;
    }
    let b = match ident_str(tokens, pos + 2) {
        Some(k) => match parse_usize(k) {
            Some(b) => b,
            None => return None,
        },
        None => return None,
    };
    Some(((a, b), pos + 3))
}

// Predicates on a ship's equipment.

/// A [`ShipEquipmentPredicate`] as plain values.
pub enum ShipEquipmentPredicateView {
    Intelligence,
    Illuminator,
    DeceptionModule,
    MissileIdentification,
    FireControl(Option<SigType>),
    Sensor(Option<SigType>),
    Jammer(Option<SigType>),
    Weapon(WeaponFamilyPredicateView),
}

impl View for ShipEquipmentPredicate {
    type V = ShipEquipmentPredicateView;

    open spec fn view(&self) -> ShipEquipmentPredicateView {
        match self {
            ShipEquipmentPredicate::Intelligence => ShipEquipmentPredicateView::Intelligence,
            ShipEquipmentPredicate::Illuminator => ShipEquipmentPredicateView::Illuminator,
            ShipEquipmentPredicate::DeceptionModule => ShipEquipmentPredicateView::DeceptionModule,
            ShipEquipmentPredicate::MissileIdentification => ShipEquipmentPredicateView::MissileIdentification,
            ShipEquipmentPredicate::FireControl(t) => ShipEquipmentPredicateView::FireControl(*t),
            ShipEquipmentPredicate::Sensor(t) => ShipEquipmentPredicateView::Sensor(*t),
            ShipEquipmentPredicate::Jammer(t) => ShipEquipmentPredicateView::Jammer(*t),
            ShipEquipmentPredicate::Weapon(p) => ShipEquipmentPredicateView::Weapon(p@),
        }
    }
}

/// A test of a ship's equipment at `pos`, and the position after it:
/// `intelligence`, `illuminator`, `deception_module`,
/// `missile_identification`; `fire_control`, `sensor` or `jammer`, each
/// optionally with `/` and a signature type; or `weapon/` and a test of a
/// weapon family.
pub open spec fn spec_parse_ship_equipment(ts: Seq<TokenView>, pos: int) -> Option<(ShipEquipmentPredicateView, int)> {
    match ident_at(ts, pos) {
        Some(k) => if k == "intelligence"@ {
            Some((ShipEquipmentPredicateView::Intelligence, pos + 1))
        } else if k == "illuminator"@ {
            Some((ShipEquipmentPredicateView::Illuminator, pos + 1))
        } else if k == "deception_module"@ {
            Some((ShipEquipmentPredicateView::DeceptionModule, pos + 1))
        } else if k == "missile_identification"@ {
            Some((ShipEquipmentPredicateView::MissileIdentification, pos + 1))
        } else if k == "fire_control"@ {
            let (o, e) = spec_parse_opt_sig_type(ts, pos + 1);
            Some((ShipEquipmentPredicateView::FireControl(o), e))
        } else if k == "sensor"@ {
            let (o, e) = spec_parse_opt_sig_type(ts, pos + 1);
            Some((ShipEquipmentPredicateView::Sensor(o), e))
        } else if k == "jammer"@ {
            let (o, e) = spec_parse_opt_sig_type(ts, pos + 1);
            Some((ShipEquipmentPredicateView::Jammer(o), e))
        } else if k == "weapon"@ {
            if is_symbol_at(ts, pos + 1, Symbol::Slash) {
                match spec_parse_weapon_family_predicate(ts, pos + 2) {
                    Some((w, e)) => Some((ShipEquipmentPredicateView::Weapon(w), e)),
                    None => None,
                }
            } else {
                None
            }
        } else {
            None
        },
        None => None,
    }
}

impl ShipEquipmentPredicate {
    /// Reads a test of a ship's equipment at `pos` (see
    /// [`spec_parse_ship_equipment`]), and gives the position after it.
    pub fn parser(tokens: &Vec<Token>, pos: usize) -> (r: Option<(ShipEquipmentPredicate, usize)>)
        ensures
            match spec_parse_ship_equipment(tokens_view(tokens@), pos as int) {
                Some((v, e)) => r matches Some((u, f)) && u@ == v && f == e,
                None => r is None,
            },
    {
        let k = match ident_str(tokens, pos) {
            Some(k) => k,
            None => return None,
        };
        if str_eq(k, "intelligence") {
            Some((ShipEquipmentPredicate::Intelligence, pos + 1))
        } else if str_eq(k, "illuminator") {
            Some((ShipEquipmentPredicate::Illuminator, pos + 1))
        } else if str_eq(k, "deception_module") {
            Some((ShipEquipmentPredicate::DeceptionModule, pos + 1))
        } else if str_eq(k, "missile_identification") {
            Some((ShipEquipmentPredicate::MissileIdentification, pos + 1))
        } else if str_eq(k, "fire_control") {
            let (o, e) = parse_opt_sig_type(tokens, pos + 1);
            Some((ShipEquipmentPredicate::FireControl(o), e))
        } else if str_eq(k, "sensor") {
            let (o, e) = parse_opt_sig_type(tokens, pos + 1);
            Some((ShipEquipmentPredicate::Sensor(o), e))
        } else if str_eq(k, "jammer") {
            let (o, e) = parse_opt_sig_type(tokens, pos + 1);
            Some((ShipEquipmentPredicate::Jammer(o), e))
        } else if str_eq(k, "weapon") {
            if symbol_is(tokens, pos + 1, Symbol::Slash) {
                match WeaponFamilyPredicate::parser(tokens, pos + 2) {
                    Some((w, e)) => Some((ShipEquipmentPredicate::Weapon(w), e)),
                    None => None,
                }
            } else {
                None
            }
        } else {
            None
        }
    }
}

// Predicates on a ship.

/// A test of a ship: any or all of a list of tests, the opposite of a
/// test, a tag it carries, its hull, its total or spare cost budget lying
/// in a range (from the first number, below the second), or a test of its
/// equipment.
#[derive(Debug, PartialEq, Eq)]
pub enum ShipPredicate {
    Any(Vec<ShipPredicate>),
    All(Vec<ShipPredicate>),
    Not(Box<ShipPredicate>),
    Tag(String),
    HullKey(HullKey),
    CostBudgetTotal(usize, usize),
    CostBudgetSpare(usize, usize),
    Equipment(ShipEquipmentPredicate),
}

/// A [`ShipPredicate`] as plain values.
pub enum ShipPredicateView {
    Any(Seq<ShipPredicateView>),
    All(Seq<ShipPredicateView>),
    Not(Box<ShipPredicateView>),
    Tag(Seq<char>),
    HullKey(HullKey),
    CostBudgetTotal(usize, usize),
    CostBudgetSpare(usize, usize),
    Equipment(ShipEquipmentPredicateView),
}

/// The tests `s` as plain values.
pub open spec fn ship_views(s: Seq<ShipPredicate>) -> Seq<ShipPredicateView>
    decreases s,
{
    if s.len() == 0 {
        Seq::empty()
    } else {
        ship_views(s.drop_last()).push(s.last().view_of())
    }
}

impl ShipPredicate {
    /// This test as plain values.
    pub open spec fn view_of(self) -> ShipPredicateView
        decreases self,
    {
        match self {
            ShipPredicate::Any(v) => ShipPredicateView::Any(ship_views(v@)),
            ShipPredicate::All(v) => ShipPredicateView::All(ship_views(v@)),
            ShipPredicate::Not(p) => ShipPredicateView::Not(Box::new((*p).view_of())),
            ShipPredicate::Tag(t) => ShipPredicateView::Tag(t@),
            ShipPredicate::HullKey(h) => ShipPredicateView::HullKey(h),
            ShipPredicate::CostBudgetTotal(a, b) => ShipPredicateView::CostBudgetTotal(a, b),
            ShipPredicate::CostBudgetSpare(a, b) => ShipPredicateView::CostBudgetSpare(a, b),
            ShipPredicate::Equipment(e) => ShipPredicateView::Equipment(e@),
        }
    }
}

impl View for ShipPredicate {
    type V = ShipPredicateView;

    open spec fn view(&self) -> ShipPredicateView {
        self.view_of()
    }
}

/// The tests `s` as plain values, one for one.
pub proof fn lemma_ship_views(s: Seq<ShipPredicate>)
    ensures
        ship_views(s).len() == s.len(),
        forall|i: int| 0 <= i < s.len() ==> #[trigger] ship_views(s)[i] == s[i].view_of(),
    decreases s.len(),
{
    if s.len() > 0 {
        lemma_ship_views(s.drop_last());
    }
}

/// A test of a ship at `pos`, and the position after it: `any(..)` or
/// `all(..)` of a list of tests, `not(..)` of one test, `hull_key/` and a
/// hull, `cost_budget_total/` or `cost_budget_spare/` and a range, or
/// `equipment/` and a test of its equipment. As the fleet generator reads
/// them, `cost_budget_total` sets a test of the spare budget and
/// `cost_budget_spare` one of the total budget. No word reads as a tag.
pub open spec fn spec_parse_ship(ts: Seq<TokenView>, pos: int) -> Option<(ShipPredicateView, int)>
    decreases ts.len() - pos, 1int,
{
    match ident_at(ts, pos) {
        Some(k) => if k == "any"@ {
            match spec_parse_ship_list(ts, pos + 1) {
                Some((l, e)) => Some((ShipPredicateView::Any(l), e)),
                None => None,
            }
        } else if k == "all"@ {
            match spec_parse_ship_list(ts, pos + 1) {
                Some((l, e)) => Some((ShipPredicateView::All(l), e)),
                None => None,
            }
        } else if k == "not"@ {
            if is_symbol_at(ts, pos + 1, Symbol::RoundBracketOpen) {
                match spec_parse_ship(ts, pos + 2) {
                    Some((p, e)) => if is_symbol_at(ts, e, Symbol::RoundBracketClose) {
                        Some((ShipPredicateView::Not(Box::new(p)), e + 1))
                    } else {
                        None
                    },
                    None => None,
                }
            } else {
                None
            }
        } else if !is_symbol_at(ts, pos + 1, Symbol::Slash) {
            None
        } else if k == "hull_key"@ {
            match ident_at(ts, pos + 2) {
                Some(w) => match HullKey::spec_from_keyword(w) {
                    Some(h) => Some((ShipPredicateView::HullKey(h), pos + 3)),
                    None => None,
                },
                None => None,
            }
        } else if k == "cost_budget_total"@ {
            match spec_parse_range(ts, pos + 2) {
                Some(((a, b), e)) => Some((ShipPredicateView::CostBudgetSpare(a, b), e)),
                None => None,
            }
        } else if k == "cost_budget_spare"@ {
            match spec_parse_range(ts, pos + 2) {
                Some(((a, b), e)) => Some((ShipPredicateView::CostBudgetTotal(a, b), e)),
                None => None,
            }
        } else if k == "equipment"@ {
            match spec_parse_ship_equipment(ts, pos + 2) {
                Some((q, e)) => Some((ShipPredicateView::Equipment(q), e)),
                None => None,
            }
        } else {
            None
        },
        None => None,
    }
}

/// A bracketed, comma-separated list of at least one test of a ship at
/// `pos` (a trailing comma allowed), and the position after it.
pub open spec fn spec_parse_ship_list(ts: Seq<TokenView>, pos: int) -> Option<(Seq<ShipPredicateView>, int)>
    decreases ts.len() - pos, 0int,
{
    if is_symbol_at(ts, pos, Symbol::RoundBracketOpen) {
        match spec_parse_ship(ts, pos + 1) {
            Some((x, e)) => if pos < e <= ts.len() {
                match spec_parse_ship_items(ts, e) {
                    Some((rest, end)) => if is_symbol_at(ts, end, Symbol::RoundBracketClose) {
                        Some((seq![x] + rest, end + 1))
                    } else {
                        None
                    },
                    None => None,
                }
            } else {
                None
            },
            None => None,
        }
    } else {
        None
    }
}

/// The tests after the first of a list from `pos` on: each after a comma; a
/// comma that no test follows ends the list and is taken. (A test always
/// takes a token at least and never reads past the end, so the test of
/// where it ended only makes the recursion visibly end.)
pub open spec fn spec_parse_ship_items(ts: Seq<TokenView>, pos: int) -> Option<(Seq<ShipPredicateView>, int)>
    decreases ts.len() - pos, 0int,
{
    if is_symbol_at(ts, pos, Symbol::Comma) {
        match spec_parse_ship(ts, pos + 1) {
            Some((x, e)) => if pos < e <= ts.len() {
                match spec_parse_ship_items(ts, e) {
                    Some((rest, end)) => Some((seq![x] + rest, end)),
                    None => None,
                }
            } else {
                None
            },
            None => Some((Seq::empty(), pos + 1)),
        }
    } else {
        Some((Seq::empty(), pos))
    }
}

/// Reads a bracketed list of tests of a ship.
fn parse_ship_list(tokens: &Vec<Token>, pos: usize) -> (r: Option<(Vec<ShipPredicate>, usize)>)
    ensures
        match spec_parse_ship_list(tokens_view(tokens@), pos as int) {
            Some((l, e)) => r matches Some((v, f)) && ship_views(v@) == l && f == e,
            None => r is None,
        },
    decreases tokens.len() - pos, 0int,
{
    if !symbol_is(tokens, pos, Symbol::RoundBracketOpen) {
        return None;
    }
    let (x, e) = match ShipPredicate::parser(tokens, pos + 1) {
        Some(p) => p,
        None => return None,
    };
    if !(pos < e && e <= tokens.len()) {
        return None;
    }
    let (mut rest, end) = match parse_ship_items(tokens, e) {
        Some(p) => p,
        None => return None,
    };
    if !symbol_is(tokens, end, Symbol::RoundBracketClose) {
        return None;
    }
    let mut v: Vec<ShipPredicate> = Vec::new();
    v.push(x);
    let ghost tail = rest@;
    v.append(&mut rest);
    proof {
        lemma_ship_views(v@);
        lemma_ship_views(tail);
        let (l, _) = spec_parse_ship_items(tokens_view(tokens@), e as int)->Some_0;
        assert(ship_views(v@) =~= seq![v@[0].view_of()] + l);
    }
    Some((v, end + 1))
}

/// Reads the tests after the first of a list.
fn parse_ship_items(tokens: &Vec<Token>, pos: usize) -> (r: Option<(Vec<ShipPredicate>, usize)>)
    ensures
        match spec_parse_ship_items(tokens_view(tokens@), pos as int) {
            Some((l, e)) => r matches Some((v, f)) && ship_views(v@) == l && f == e,
            None => r is None,
        },
    decreases tokens.len() - pos, 0int,
{
    if !symbol_is(tokens, pos, Symbol::Comma) {
        proof {
            assert(ship_views(Seq::<ShipPredicate>::empty()) == Seq::<ShipPredicateView>::empty());
        }
        return Some((Vec::new(), pos));
    }
    let (x, e) = match ShipPredicate::parser(tokens, pos + 1) {
        Some(p) => p,
        None => {
            proof {
                assert(ship_views(Seq::<ShipPredicate>::empty()) == Seq::<ShipPredicateView>::empty());
            }
            return Some((Vec::new(), pos + 1));
        },
    };
    if !(pos < e && e <= tokens.len()) {
        return None;
    }
    let (mut rest, end) = match parse_ship_items(tokens, e) {
        Some(p) => p,
        None => return None,
    };
    let mut v: Vec<ShipPredicate> = Vec::new();
    v.push(x);
    let ghost tail = rest@;
    v.append(&mut rest);
    proof {
        lemma_ship_views(v@);
        lemma_ship_views(tail);
        let (l, _) = spec_parse_ship_items(tokens_view(tokens@), e as int)->Some_0;
        assert(ship_views(v@) =~= seq![v@[0].view_of()] + l);
    }
    Some((v, end))
}

impl ShipPredicate {
    /// Reads a test of a ship at `pos` (see [`spec_parse_ship`]), and gives
    /// the position after it.
    pub fn parser(tokens: &Vec<Token>, pos: usize) -> (r: Option<(ShipPredicate, usize)>)
        ensures
            match spec_parse_ship(tokens_view(tokens@), pos as int) {
                Some((v, e)) => r matches Some((u, f)) && u@ == v && f == e,
                None => r is None,
            },
        decreases tokens.len() - pos, 1int,
    {
        let k = match ident_str(tokens, pos) {
            Some(k) => k,
            None => return None,
        };
        if str_eq(k, "any") {
            match parse_ship_list(tokens, pos + 1) {
                Some((l, e)) => Some((ShipPredicate::Any(l), e)),
                None => None,
            }
        } else if str_eq(k, "all") {
            match parse_ship_list(tokens, pos + 1) {
                Some((l, e)) => Some((ShipPredicate::All(l), e)),
                None => None,
            }
        } else if str_eq(k, "not") {
            if symbol_is(tokens, pos + 1, Symbol::RoundBracketOpen) {
                match ShipPredicate::parser(tokens, pos + 2) {
                    Some((p, e)) => if symbol_is(tokens, e, Symbol::RoundBracketClose) {
                        Some((ShipPredicate::Not(Box::new(p)), e + 1))
                    } else {
                        None
                    },
                    None => None,
                }
            } else {
                None
            }
        } else if !symbol_is(tokens, pos + 1, Symbol::Slash) {
            None
        } else if str_eq(k, "hull_key") {
            match ident_str(tokens, pos + 2) {
                Some(w) => match HullKey::from_keyword(w) {
                    Some(h) => Some((ShipPredicate::HullKey(h), pos + 3)),
                    None => None,
                },
                None => None,
            }
        } else if str_eq(k, "cost_budget_total") {
            match parse_range(tokens, pos + 2) {
                Some(((a, b), e)) => Some((ShipPredicate::CostBudgetSpare(a, b), e)),
                None => None,
            }
        } else if str_eq(k, "cost_budget_spare") {
            match parse_range(tokens, pos + 2) {
                Some(((a, b), e)) => Some((ShipPredicate::CostBudgetTotal(a, b), e)),
                None => None,
            }
        } else if str_eq(k, "equipment") {
            match ShipEquipmentPredicate::parser(tokens, pos + 2) {
                Some((q, e)) => Some((ShipPredicate::Equipment(q), e)),
                None => None,
            }
        } else {
            None
        }
    }
}

// Testing ships.

/// Whether `value` passes a test of realms given as plain values.
pub open spec fn spec_realm_view_contains(m: MultiPredicateView<DistanceRealm>, value: DistanceRealm) -> bool {
    match m {
        MultiPredicateView::InRange(a, b) => a as int <= value as int && value as int <= b as int,
        MultiPredicateView::AnyOf(v) => v.contains(value),
        MultiPredicateView::Only(a) => a == value,
    }
}

/// Whether `family` passes a test of weapon families given as plain
/// values: it is the family named, and what it carries passes the optional
/// test.
pub open spec fn spec_weapon_view_test(p: WeaponFamilyPredicateView, family: WeaponFamily) -> bool {
    match (p, family) {
        (WeaponFamilyPredicateView::EnergyBeam(q), WeaponFamily::EnergyBeam(d)) => q is None || spec_realm_view_contains(q->Some_0, d),
        (WeaponFamilyPredicateView::EnergyPlasma(q), WeaponFamily::EnergyPlasma(d)) => q is None || spec_realm_view_contains(q->Some_0, d),
        (WeaponFamilyPredicateView::EnergyRailgun(q), WeaponFamily::EnergyRailgun(d)) => q is None || spec_realm_view_contains(q->Some_0, d),
        (WeaponFamilyPredicateView::Ballistic(q), WeaponFamily::Ballistic(d)) => q is None || spec_realm_view_contains(q->Some_0, d),
        (WeaponFamilyPredicateView::PointDefense(q), WeaponFamily::PointDefense(t)) => q is None || q == Some(t),
        (WeaponFamilyPredicateView::StandardMissile(q), WeaponFamily::StandardMissile(m)) => q is None || q == Some(m),
        (WeaponFamilyPredicateView::ContainerMissile, WeaponFamily::ContainerMissile) => true,
        (WeaponFamilyPredicateView::LoiteringMine, WeaponFamily::LoiteringMine) => true,
        (WeaponFamilyPredicateView::UnguidedRocket, WeaponFamily::UnguidedRocket) => true,
        _ => false,
    }
}

/// Whether the ship `summary` passes a test of its equipment given as plain
/// values: the flag is set, the signature type is among those of its kind
/// (or any, with none given), or one of its weapon families passes.
pub open spec fn spec_ship_equipment_test(p: ShipEquipmentPredicateView, summary: ShipEquipmentSummary) -> bool {
    match p {
        ShipEquipmentPredicateView::Intelligence => summary.has_intelligence,
        ShipEquipmentPredicateView::Illuminator => summary.has_illuminator,
        ShipEquipmentPredicateView::DeceptionModule => summary.has_deception_module,
        ShipEquipmentPredicateView::MissileIdentification => summary.has_missile_identification,
        ShipEquipmentPredicateView::FireControl(t) => t is None || sig_type_items(summary.fire_control).contains(t->Some_0),
        ShipEquipmentPredicateView::Sensor(t) => t is None || sig_type_items(summary.sensors).contains(t->Some_0),
        ShipEquipmentPredicateView::Jammer(t) => t is None || sig_type_items(summary.jamming).contains(t->Some_0),
        ShipEquipmentPredicateView::Weapon(w) => exists|i: int| 0 <= i < weapon_family_items(summary.weapons).len()
            && spec_weapon_view_test(w, #[trigger] weapon_family_items(summary.weapons)[i]),
    }
}

/// A test of equipment reads the same as its plain values.
pub proof fn lemma_ship_equipment_test_view(p: ShipEquipmentPredicate, summary: ShipEquipmentSummary)
    ensures
        p.spec_test(summary) == spec_ship_equipment_test(p@, summary),
{
    if let ShipEquipmentPredicate::Weapon(w) = p {
        assert forall|f: WeaponFamily| w.spec_test(f) == spec_weapon_view_test(w@, f) by {
            match w {
                WeaponFamilyPredicate::EnergyBeam(q) | WeaponFamilyPredicate::EnergyPlasma(q)
                | WeaponFamilyPredicate::EnergyRailgun(q) | WeaponFamilyPredicate::Ballistic(q) => {
                    if let Some(m) = q {
                        match m {
                            MultiPredicate::InRange(_, _) => {},
                            MultiPredicate::AnyOf(_) => {},
                            MultiPredicate::Only(_) => {},
                        }
                    }
                },
                _ => {},
            }
        }
        let items = weapon_family_items(summary.weapons);
        if p.spec_test(summary) {
            let i = choose|i: int| 0 <= i < items.len() && w.spec_test(#[trigger] items[i]);
            assert(spec_weapon_view_test(w@, items[i]));
        }
        if spec_ship_equipment_test(p@, summary) {
            let i = choose|i: int| 0 <= i < items.len() && spec_weapon_view_test(w@, #[trigger] items[i]);
            assert(w.spec_test(items[i]));
        }
    }
}

/// Whether a ship with the tags `tags`, the hull `hull`, the total and
/// spare cost budgets `total` and `spare` and the equipment `summary`
/// passes the test `p`: any or all of a list, the opposite of one test,
/// carrying the tag, being of the hull, a budget lying in the range (from
/// its first number, below its second), or its equipment passing.
pub open spec fn spec_ship_test(p: ShipPredicateView, tags: Seq<Seq<char>>, hull: HullKey, total: usize, spare: usize,
    summary: ShipEquipmentSummary) -> bool
    decreases p, 1int,
{
    match p {
        ShipPredicateView::Any(l) => spec_ship_test_any(l, tags, hull, total, spare, summary),
        ShipPredicateView::All(l) => spec_ship_test_all(l, tags, hull, total, spare, summary),
        ShipPredicateView::Not(q) => !spec_ship_test(*q, tags, hull, total, spare, summary),
        ShipPredicateView::Tag(t) => tags.contains(t),
        ShipPredicateView::HullKey(h) => hull == h,
        ShipPredicateView::CostBudgetTotal(a, b) => a <= total && total < b,
        ShipPredicateView::CostBudgetSpare(a, b) => a <= spare && spare < b,
        ShipPredicateView::Equipment(e) => spec_ship_equipment_test(e, summary),
    }
}

/// Whether the ship passes some test of `l`.
pub open spec fn spec_ship_test_any(l: Seq<ShipPredicateView>, tags: Seq<Seq<char>>, hull: HullKey, total: usize,
    spare: usize, summary: ShipEquipmentSummary) -> bool
    decreases l, 0int,
{
    if l.len() == 0 {
        false
    } else {
        spec_ship_test_any(l.drop_last(), tags, hull, total, spare, summary)
            || spec_ship_test(l.last(), tags, hull, total, spare, summary)
    }
}

/// Whether the ship passes every test of `l`.
pub open spec fn spec_ship_test_all(l: Seq<ShipPredicateView>, tags: Seq<Seq<char>>, hull: HullKey, total: usize,
    spare: usize, summary: ShipEquipmentSummary) -> bool
    decreases l, 0int,
{
    if l.len() == 0 {
        true
    } else {
        spec_ship_test_all(l.drop_last(), tags, hull, total, spare, summary)
            && spec_ship_test(l.last(), tags, hull, total, spare, summary)
    }
}

/// The texts of the strings `tags`.
pub open spec fn tag_views(tags: Seq<String>) -> Seq<Seq<char>> {
    tags.map_values(|t: String| t@)
}

/// Whether `tag` is among `tags`.
fn has_tag(tags: &Vec<String>, tag: &String) -> (r: bool)
    ensures
        r == tag_views(tags@).contains(tag@),
{
    let mut i: usize = 0;
    while i < tags.len()
        invariant
            i <= tags@.len(),
            forall|j: int| 0 <= j < i ==> tags@[j]@ != tag@,
        decreases tags.len() - i,
    {
        if str_eq(tags[i].as_str(), tag.as_str()) {
            proof {
                assert(tag_views(tags@)[i as int] == tag@);
            }
            return true;
        }
        i = i + 1;
    }
    proof {
        if tag_views(tags@).contains(tag@) {
            let j = choose|j: int| 0 <= j < tag_views(tags@).len() && tag_views(tags@)[j] == tag@;
            assert(tags@[j]@ == tag@);
        }
    }
    false
}

impl ShipPredicate {
    /// Whether a ship with the tags `tags`, the hull `hull_type`, the cost
    /// budgets `cost_budget_total` and `cost_budget_spare` and the equipment
    /// `summary` passes this test (see [`spec_ship_test`]).
    pub fn test(&self, tags: &Vec<String>, hull_type: HullKey, cost_budget_total: usize, cost_budget_spare: usize,
        summary: &ShipEquipmentSummary) -> (r: bool)
        ensures
            r == spec_ship_test(self@, tag_views(tags@), hull_type, cost_budget_total, cost_budget_spare, *summary),
        decreases self,
    {
        match self {
            ShipPredicate::Any(v) => {
                proof {
                    lemma_ship_views(v@);
                }
                let mut found = false;
                let mut i: usize = 0;
                while i < v.len()
                    invariant
                        i <= v@.len(),
                        *self == ShipPredicate::Any(*v),
                        self@ == ShipPredicateView::Any(ship_views(v@)),
                        ship_views(v@).len() == v@.len(),
                        forall|j: int| 0 <= j < v@.len() ==> #[trigger] ship_views(v@)[j] == v@[j].view_of(),
                        found == spec_ship_test_any(ship_views(v@).take(i as int), tag_views(tags@), hull_type,
                            cost_budget_total, cost_budget_spare, *summary),
                    decreases v.len() - i,
                {
                    proof {
                        assert(decreases_to!(*self => *v));
                        assert(decreases_to!(*v => v[i as int]));
                        let l = ship_views(v@);
                        assert(l.take(i + 1).drop_last() == l.take(i as int));
                        assert(l.take(i + 1).last() == l[i as int]);
                    }
                    let t = v[i].test(tags, hull_type, cost_budget_total, cost_budget_spare, summary);
                    found = found || t;
                    i = i + 1;
                }
                proof {
                    assert(ship_views(v@).take(i as int) == ship_views(v@));
                }
                found
            },
            ShipPredicate::All(v) => {
                proof {
                    lemma_ship_views(v@);
                }
                let mut all = true;
                let mut i: usize = 0;
                while i < v.len()
                    invariant
                        i <= v@.len(),
                        *self == ShipPredicate::All(*v),
                        self@ == ShipPredicateView::All(ship_views(v@)),
                        ship_views(v@).len() == v@.len(),
                        forall|j: int| 0 <= j < v@.len() ==> #[trigger] ship_views(v@)[j] == v@[j].view_of(),
                        all == spec_ship_test_all(ship_views(v@).take(i as int), tag_views(tags@), hull_type,
                            cost_budget_total, cost_budget_spare, *summary),
                    decreases v.len() - i,
                {
                    proof {
                        assert(decreases_to!(*self => *v));
                        assert(decreases_to!(*v => v[i as int]));
                        let l = ship_views(v@);
                        assert(l.take(i + 1).drop_last() == l.take(i as int));
                        assert(l.take(i + 1).last() == l[i as int]);
                    }
                    let t = v[i].test(tags, hull_type, cost_budget_total, cost_budget_spare, summary);
                    all = all && t;
                    i = i + 1;
                }
                proof {
                    assert(ship_views(v@).take(i as int) == ship_views(v@));
                }
                all
            },
            ShipPredicate::Not(q) => !q.test(tags, hull_type, cost_budget_total, cost_budget_spare, summary),
            ShipPredicate::Tag(t) => has_tag(tags, t),
            ShipPredicate::HullKey(h) => hull_type == *h,
            ShipPredicate::CostBudgetTotal(a, b) => *a <= cost_budget_total && cost_budget_total < *b,
            ShipPredicate::CostBudgetSpare(a, b) => *a <= cost_budget_spare && cost_budget_spare < *b,
            ShipPredicate::Equipment(e) => {
                proof {
                    lemma_ship_equipment_test_view(*e, *summary);
                }
                e.test(summary)
            },
        }
    }
}

// Reading a ship test from its text.

/// Why a text is no test: a character at this position starts no token, or
/// the tokens do not begin with a test.
#[derive(Debug, Clone, Copy, PartialEq, Eq, Structural)]
pub enum PredicateParseError {
    Token(usize),
    Grammar,
}

/// What [`parse_ship_predicate`] gives for the text `s`: the test its
/// tokens begin with (tokens after it are not read), or why there is none.
pub open spec fn spec_parse_ship_text(s: Seq<char>) -> Result<ShipPredicateView, PredicateParseError> {
    match spec_tokenize(s) {
        Err(at) => Err(PredicateParseError::Token(at as usize)),
        Ok(ts) => match spec_parse_ship(ts, 0) {
            Some((p, _)) => Ok(p),
            None => Err(PredicateParseError::Grammar),
        },
    }
}

/// Reads a test of a ship from its text: the text is cut into tokens (see
/// [`tokenize`]) and the test read from the first token on (see
/// [`spec_parse_ship`]).
pub fn parse_ship_predicate(source: &str) -> (r: Result<ShipPredicate, PredicateParseError>)
    ensures
        match spec_parse_ship_text(source@) {
            Ok(v) => r matches Ok(p) && p@ == v,
            Err(e) => r == Err::<ShipPredicate, PredicateParseError>(e),
        },
{
    let tokens = match tokenize(source) {
        Ok(t) => t,
        Err(at) => return Err(PredicateParseError::Token(at)),
    };
    match ShipPredicate::parser(&tokens, 0) {
        Some((p, _)) => Ok(p),
        None => Err(PredicateParseError::Grammar),
    }
}

// Predicates on a missile.

/// A test of a missile: any or all of a list of tests, the opposite of a
/// test, a tag it carries, its body, its cost lying in a range (from the
/// first number, below the second), or a test of its equipment.
#[derive(Debug, PartialEq, Eq)]
pub enum MissilePredicate {
    Any(Vec<MissilePredicate>),
    All(Vec<MissilePredicate>),
    Not(Box<MissilePredicate>),
    Tag(String),
    MissileBodyKey(MissileBodyKey),
    Cost(usize, usize),
    Equipment(MissileEquipmentPredicate),
}

/// Whether a missile with the tags `tags`, the body `body`, the cost `cost`
/// and the equipment `summary` passes the test `p`.
pub open spec fn spec_missile_test(p: MissilePredicate, tags: Seq<Seq<char>>, body: MissileBodyKey, cost: usize,
    summary: MissileEquipmentSummary) -> bool
    decreases p, 1int,
{
    match p {
        MissilePredicate::Any(l) => spec_missile_test_any(l@, tags, body, cost, summary),
        MissilePredicate::All(l) => spec_missile_test_all(l@, tags, body, cost, summary),
        MissilePredicate::Not(q) => !spec_missile_test(*q, tags, body, cost, summary),
        MissilePredicate::Tag(t) => tags.contains(t@),
        MissilePredicate::MissileBodyKey(k) => body == k,
        MissilePredicate::Cost(a, b) => a <= cost && cost < b,
        MissilePredicate::Equipment(e) => e.spec_test(summary),
    }
}

/// Whether the missile passes some test of `l`.
pub open spec fn spec_missile_test_any(l: Seq<MissilePredicate>, tags: Seq<Seq<char>>, body: MissileBodyKey, cost: usize,
    summary: MissileEquipmentSummary) -> bool
    decreases l, 0int,
{
    if l.len() == 0 {
        false
    } else {
        spec_missile_test_any(l.drop_last(), tags, body, cost, summary) || spec_missile_test(l.last(), tags, body, cost, summary)
    }
}

/// Whether the missile passes every test of `l`.
pub open spec fn spec_missile_test_all(l: Seq<MissilePredicate>, tags: Seq<Seq<char>>, body: MissileBodyKey, cost: usize,
    summary: MissileEquipmentSummary) -> bool
    decreases l, 0int,
{
    if l.len() == 0 {
        true
    } else {
        spec_missile_test_all(l.drop_last(), tags, body, cost, summary) && spec_missile_test(l.last(), tags, body, cost, summary)
    }
}

impl MissilePredicate {
    /// Whether a missile with the tags `tags`, the body `body_key`, the cost
    /// `cost` and the equipment `summary` passes this test (see
    /// [`spec_missile_test`]).
    pub fn test(&self, tags: &Vec<String>, body_key: MissileBodyKey, cost: usize, summary: &MissileEquipmentSummary) -> (r: bool)
        ensures
            r == spec_missile_test(*self, tag_views(tags@), body_key, cost, *summary),
        decreases self,
    {
        match self {
            MissilePredicate::Any(v) => {
                proof {
                    assert(decreases_to!(*self => *v));
                }
                let mut found = false;
                let mut i: usize = 0;
                while i < v.len()
                    invariant
                        i <= v@.len(),
                        *self == MissilePredicate::Any(*v),
                        decreases_to!(*self => *v),
                        found == spec_missile_test_any(v@.take(i as int), tag_views(tags@), body_key, cost, *summary),
                    decreases v.len() - i,
                {
                    proof {
                        assert(decreases_to!(*v => v[i as int]));
                        assert(v@.take(i + 1).drop_last() == v@.take(i as int));
                    }
                    let t = v[i].test(tags, body_key, cost, summary);
                    found = found || t;
                    i = i + 1;
                }
                proof {
                    assert(v@.take(i as int) == v@);
                }
                found
            },
            MissilePredicate::All(v) => {
                proof {
                    assert(decreases_to!(*self => *v));
                }
                let mut all = true;
                let mut i: usize = 0;
                while i < v.len()
                    invariant
                        i <= v@.len(),
                        *self == MissilePredicate::All(*v),
                        decreases_to!(*self => *v),
                        all == spec_missile_test_all(v@.take(i as int), tag_views(tags@), body_key, cost, *summary),
                    decreases v.len() - i,
                {
                    proof {
                        assert(decreases_to!(*v => v[i as int]));
                        assert(v@.take(i + 1).drop_last() == v@.take(i as int));
                    }
                    let t = v[i].test(tags, body_key, cost, summary);
                    all = all && t;
                    i = i + 1;
                }
                proof {
                    assert(v@.take(i as int) == v@);
                }
                all
            },
            MissilePredicate::Not(q) => !q.test(tags, body_key, cost, summary),
            MissilePredicate::Tag(t) => has_tag(tags, t),
            MissilePredicate::MissileBodyKey(k) => body_key == *k,
            MissilePredicate::Cost(a, b) => *a <= cost && cost < *b,
            MissilePredicate::Equipment(e) => e.test(summary),
        }
    }
}

} // verus!

verus! {

/// A range of realms given as plain values holds every realm from its first
/// to its last bound, those between included; a list holds its members; a
/// single realm holds itself.
pub proof fn lemma_realm_view_contains(p: MultiPredicateView<DistanceRealm>, v: DistanceRealm)
    ensures
        p matches MultiPredicateView::InRange(a, b)
            ==> (spec_realm_view_contains(p, v) <==> crate::predicate::realm_at_most(a, v) && crate::predicate::realm_at_most(v, b)),
        p matches MultiPredicateView::AnyOf(l) ==> (spec_realm_view_contains(p, v) <==> l.contains(v)),
        p matches MultiPredicateView::Only(a) ==> (spec_realm_view_contains(p, v) <==> a == v),
{
}

} // verus!

verus! {

/// The class name by which the fleet generator's language names each hull.
pub open spec fn spec_hull_class_word(h: HullKey) -> Seq<char> {
    match h {
        HullKey::SprinterCorvette => "sprinter"@,
        HullKey::RainesFrigate => "raines"@,
        HullKey::KeystoneDestroyer => "keystone"@,
        HullKey::VauxhallLightCruiser => "vauxhall"@,
        HullKey::AxfordHeavyCruiser => "axford"@,
        HullKey::SolomonBattleship => "solomon"@,
        HullKey::ShuttleClipper => "ferryman"@,
        HullKey::TugboatClipper => "draugr"@,
        HullKey::CargoFeederMonitor => "flathead"@,
        HullKey::OcelloCommandCruiser => "ocello"@,
        HullKey::BulkFreighterLineShip => "marauder"@,
        HullKey::ContainerLinerLineShip => "moorline"@,
    }
}

/// The name of what a hull is, for the hulls the language also names so.
pub open spec fn spec_hull_kind_word(h: HullKey) -> Option<Seq<char>> {
    match h {
        HullKey::ShuttleClipper => Some("shuttle"@),
        HullKey::TugboatClipper => Some("tugboat"@),
        HullKey::CargoFeederMonitor => Some("cargo_feeder"@),
        HullKey::BulkFreighterLineShip => Some("bulk_freighter"@),
        HullKey::ContainerLinerLineShip => Some("container_liner"@),
        _ => None,
    }
}

/// Each hull's class name (and, where it has one, the name of what it is)
/// names that hull, and a word names a hull only if it is one of that
/// hull's names: so distinct class names name distinct hulls.
pub proof fn lemma_hull_keywords(h: HullKey, w: Seq<char>)
    ensures
        HullKey::spec_from_keyword(spec_hull_class_word(h)) == Some(h),
        spec_hull_kind_word(h) matches Some(k) ==> HullKey::spec_from_keyword(k) == Some(h),
        HullKey::spec_from_keyword(w) == Some(h) ==> w == spec_hull_class_word(h) || spec_hull_kind_word(h) == Some(w),
{
    reveal_strlit("sprinter");
    reveal_strlit("raines");
    reveal_strlit("keystone");
    reveal_strlit("vauxhall");
    reveal_strlit("axford");
    reveal_strlit("solomon");
    reveal_strlit("ferryman");
    reveal_strlit("shuttle");
    reveal_strlit("draugr");
    reveal_strlit("tugboat");
    reveal_strlit("flathead");
    reveal_strlit("cargo_feeder");
    reveal_strlit("ocello");
    reveal_strlit("marauder");
    reveal_strlit("bulk_freighter");
    reveal_strlit("moorline");
    reveal_strlit("container_liner");
    assert("sprinter"@.len() == 8 && "sprinter"@[0] == 's' && "sprinter"@[1] == 'p');
    assert("raines"@.len() == 6 && "raines"@[0] == 'r' && "raines"@[1] == 'a');
    assert("keystone"@.len() == 8 && "keystone"@[0] == 'k' && "keystone"@[1] == 'e');
    assert("vauxhall"@.len() == 8 && "vauxhall"@[0] == 'v' && "vauxhall"@[1] == 'a');
    assert("axford"@.len() == 6 && "axford"@[0] == 'a' && "axford"@[1] == 'x');
    assert("solomon"@.len() == 7 && "solomon"@[0] == 's' && "solomon"@[1] == 'o');
    assert("ferryman"@.len() == 8 && "ferryman"@[0] == 'f' && "ferryman"@[1] == 'e');
    assert("shuttle"@.len() == 7 && "shuttle"@[0] == 's' && "shuttle"@[1] == 'h');
    assert("draugr"@.len() == 6 && "draugr"@[0] == 'd' && "draugr"@[1] == 'r');
    assert("tugboat"@.len() == 7 && "tugboat"@[0] == 't' && "tugboat"@[1] == 'u');
    assert("flathead"@.len() == 8 && "flathead"@[0] == 'f' && "flathead"@[1] == 'l');
    assert("cargo_feeder"@.len() == 12 && "cargo_feeder"@[0] == 'c' && "cargo_feeder"@[1] == 'a');
    assert("ocello"@.len() == 6 && "ocello"@[0] == 'o' && "ocello"@[1] == 'c');
    assert("marauder"@.len() == 8 && "marauder"@[0] == 'm' && "marauder"@[1] == 'a');
    assert("bulk_freighter"@.len() == 14 && "bulk_freighter"@[0] == 'b' && "bulk_freighter"@[1] == 'u');
    assert("moorline"@.len() == 8 && "moorline"@[0] == 'm' && "moorline"@[1] == 'o');
    assert("container_liner"@.len() == 15 && "container_liner"@[0] == 'c' && "container_liner"@[1] == 'o');
}

} // verus!

verus! {

/// A ship passes `any` of a list exactly when it passes some test of the
/// list, and `all` of it exactly when it passes every one.
pub proof fn lemma_ship_test_lists(l: Seq<ShipPredicateView>, tags: Seq<Seq<char>>, hull: HullKey, total: usize,
    spare: usize, summary: ShipEquipmentSummary)
    ensures
        spec_ship_test_any(l, tags, hull, total, spare, summary)
            <==> exists|i: int| 0 <= i < l.len() && #[trigger] spec_ship_test(l[i], tags, hull, total, spare, summary),
        spec_ship_test_all(l, tags, hull, total, spare, summary)
            <==> forall|i: int| 0 <= i < l.len() ==> #[trigger] spec_ship_test(l[i], tags, hull, total, spare, summary),
    decreases l.len(),
{
    if l.len() > 0 {
        let d = l.drop_last();
        lemma_ship_test_lists(d, tags, hull, total, spare, summary);
        assert forall|i: int| 0 <= i < d.len() implies d[i] == l[i] by {}
        if spec_ship_test_any(l, tags, hull, total, spare, summary) {
            if spec_ship_test_any(d, tags, hull, total, spare, summary) {
                let i = choose|i: int| 0 <= i < d.len() && #[trigger] spec_ship_test(d[i], tags, hull, total, spare, summary);
                assert(spec_ship_test(l[i], tags, hull, total, spare, summary));
            } else {
                assert(spec_ship_test(l[l.len() - 1], tags, hull, total, spare, summary));
            }
        }
        if exists|i: int| 0 <= i < l.len() && #[trigger] spec_ship_test(l[i], tags, hull, total, spare, summary) {
            let i = choose|i: int| 0 <= i < l.len() && #[trigger] spec_ship_test(l[i], tags, hull, total, spare, summary);
            if i < l.len() - 1 {
                assert(spec_ship_test(d[i], tags, hull, total, spare, summary));
            }
        }
        if forall|i: int| 0 <= i < l.len() ==> #[trigger] spec_ship_test(l[i], tags, hull, total, spare, summary) {
            assert forall|i: int| 0 <= i < d.len() implies #[trigger] spec_ship_test(d[i], tags, hull, total, spare, summary) by {
                assert(spec_ship_test(l[i], tags, hull, total, spare, summary));
            }
            assert(spec_ship_test(l[l.len() - 1], tags, hull, total, spare, summary));
        }
    }
}

/// What each kind of ship test asks: the opposite of a test fails where it
/// passes; a tag must be carried; the hull must be the one named; a budget
/// must lie from the first number of its range up to, not including, the
/// second; an equipment test asks the equipment.
pub proof fn lemma_ship_test_kinds(p: ShipPredicateView, tags: Seq<Seq<char>>, hull: HullKey, total: usize, spare: usize,
    summary: ShipEquipmentSummary)
    ensures
        p matches ShipPredicateView::Not(q) ==> (spec_ship_test(p, tags, hull, total, spare, summary)
            <==> !spec_ship_test(*q, tags, hull, total, spare, summary)),
        p matches ShipPredicateView::Tag(t) ==> (spec_ship_test(p, tags, hull, total, spare, summary)
            <==> exists|i: int| 0 <= i < tags.len() && tags[i] == t),
        p matches ShipPredicateView::HullKey(h) ==> (spec_ship_test(p, tags, hull, total, spare, summary) <==> hull == h),
        p matches ShipPredicateView::CostBudgetTotal(a, b) ==> (spec_ship_test(p, tags, hull, total, spare, summary)
            <==> a <= total && total < b),
        p matches ShipPredicateView::CostBudgetSpare(a, b) ==> (spec_ship_test(p, tags, hull, total, spare, summary)
            <==> a <= spare && spare < b),
        p matches ShipPredicateView::Equipment(e) ==> (spec_ship_test(p, tags, hull, total, spare, summary)
            <==> spec_ship_equipment_test(e, summary)),
{
}

/// What each test of a ship's equipment asks: its flag is set; a signature
/// type named is among those of its kind (any summary passes when none is
/// named); some weapon family of the ship passes the weapon test.
pub proof fn lemma_ship_equipment_test_kinds(p: ShipEquipmentPredicateView, summary: ShipEquipmentSummary, t: SigType)
    ensures
        p is Intelligence ==> (spec_ship_equipment_test(p, summary) == summary.has_intelligence),
        p is Illuminator ==> (spec_ship_equipment_test(p, summary) == summary.has_illuminator),
        p is DeceptionModule ==> (spec_ship_equipment_test(p, summary) == summary.has_deception_module),
        p is MissileIdentification ==> (spec_ship_equipment_test(p, summary) == summary.has_missile_identification),
        p == ShipEquipmentPredicateView::FireControl(Some(t))
            ==> (spec_ship_equipment_test(p, summary) <==> sig_type_items(summary.fire_control).contains(t)),
        p == ShipEquipmentPredicateView::Sensor(Some(t))
            ==> (spec_ship_equipment_test(p, summary) <==> sig_type_items(summary.sensors).contains(t)),
        p == ShipEquipmentPredicateView::Jammer(Some(t))
            ==> (spec_ship_equipment_test(p, summary) <==> sig_type_items(summary.jamming).contains(t)),
        p == ShipEquipmentPredicateView::FireControl(None) || p == ShipEquipmentPredicateView::Sensor(None)
            || p == ShipEquipmentPredicateView::Jammer(None) ==> spec_ship_equipment_test(p, summary),
        p matches ShipEquipmentPredicateView::Weapon(w) ==> (spec_ship_equipment_test(p, summary)
            <==> exists|f: WeaponFamily| weapon_family_items(summary.weapons).contains(f) && #[trigger] spec_weapon_view_test(w, f)),
{
    if let ShipEquipmentPredicateView::Weapon(w) = p {
        let items = weapon_family_items(summary.weapons);
        if exists|f: WeaponFamily| items.contains(f) && #[trigger] spec_weapon_view_test(w, f) {
            let f = choose|f: WeaponFamily| items.contains(f) && #[trigger] spec_weapon_view_test(w, f);
            let i = choose|i: int| 0 <= i < items.len() && items[i] == f;
            assert(spec_weapon_view_test(w, items[i]));
        }
        if spec_ship_equipment_test(p, summary) {
            let i = choose|i: int| 0 <= i < items.len() && spec_weapon_view_test(w, #[trigger] items[i]);
            assert(items.contains(items[i]));
        }
    }
}

/// A missile passes `any` of a list exactly when it passes some test of the
/// list, and `all` of it exactly when it passes every one.
pub proof fn lemma_missile_test_lists(l: Seq<MissilePredicate>, tags: Seq<Seq<char>>, body: MissileBodyKey, cost: usize,
    summary: MissileEquipmentSummary)
    ensures
        spec_missile_test_any(l, tags, body, cost, summary)
            <==> exists|i: int| 0 <= i < l.len() && #[trigger] spec_missile_test(l[i], tags, body, cost, summary),
        spec_missile_test_all(l, tags, body, cost, summary)
            <==> forall|i: int| 0 <= i < l.len() ==> #[trigger] spec_missile_test(l[i], tags, body, cost, summary),
    decreases l.len(),
{
    if l.len() > 0 {
        let d = l.drop_last();
        lemma_missile_test_lists(d, tags, body, cost, summary);
        assert forall|i: int| 0 <= i < d.len() implies d[i] == l[i] by {}
        if spec_missile_test_any(l, tags, body, cost, summary) {
            if spec_missile_test_any(d, tags, body, cost, summary) {
                let i = choose|i: int| 0 <= i < d.len() && #[trigger] spec_missile_test(d[i], tags, body, cost, summary);
                assert(spec_missile_test(l[i], tags, body, cost, summary));
            } else {
                assert(spec_missile_test(l[l.len() - 1], tags, body, cost, summary));
            }
        }
        if exists|i: int| 0 <= i < l.len() && #[trigger] spec_missile_test(l[i], tags, body, cost, summary) {
            let i = choose|i: int| 0 <= i < l.len() && #[trigger] spec_missile_test(l[i], tags, body, cost, summary);
            if i < l.len() - 1 {
                assert(spec_missile_test(d[i], tags, body, cost, summary));
            }
        }
        if forall|i: int| 0 <= i < l.len() ==> #[trigger] spec_missile_test(l[i], tags, body, cost, summary) {
            assert forall|i: int| 0 <= i < d.len() implies #[trigger] spec_missile_test(d[i], tags, body, cost, summary) by {
                assert(spec_missile_test(l[i], tags, body, cost, summary));
            }
            assert(spec_missile_test(l[l.len() - 1], tags, body, cost, summary));
        }
    }
}

/// What each kind of missile test asks: the opposite of a test fails where
/// it passes; a tag must be carried; the body must be the one named; the
/// cost must lie from the first number of the range up to, not including,
/// the second; an equipment test asks the equipment.
pub proof fn lemma_missile_test_kinds(p: MissilePredicate, tags: Seq<Seq<char>>, body: MissileBodyKey, cost: usize,
    summary: MissileEquipmentSummary)
    ensures
        p matches MissilePredicate::Not(q) ==> (spec_missile_test(p, tags, body, cost, summary)
            <==> !spec_missile_test(*q, tags, body, cost, summary)),
        p matches MissilePredicate::Tag(t) ==> (spec_missile_test(p, tags, body, cost, summary)
            <==> exists|i: int| 0 <= i < tags.len() && tags[i] == t@),
        p matches MissilePredicate::MissileBodyKey(k) ==> (spec_missile_test(p, tags, body, cost, summary) <==> body == k),
        p matches MissilePredicate::Cost(a, b) ==> (spec_missile_test(p, tags, body, cost, summary) <==> a <= cost && cost < b),
        p matches MissilePredicate::Equipment(e) ==> (spec_missile_test(p, tags, body, cost, summary) <==> e.spec_test(summary)),
{
}

/// What each weapon family test asks: the family must be of the kind named,
/// and what it carries (its realm, point defense kind or missile size) must
/// pass the optional test; without a test, every family of the kind passes.
pub proof fn lemma_weapon_view_test_kinds(p: WeaponFamilyPredicateView, f: WeaponFamily)
    ensures
        p matches WeaponFamilyPredicateView::EnergyBeam(q) ==> (spec_weapon_view_test(p, f) <==> (f matches WeaponFamily::EnergyBeam(d)
            && (q is None || spec_realm_view_contains(q->Some_0, d)))),
        p matches WeaponFamilyPredicateView::EnergyPlasma(q) ==> (spec_weapon_view_test(p, f) <==> (f matches WeaponFamily::EnergyPlasma(d)
            && (q is None || spec_realm_view_contains(q->Some_0, d)))),
        p matches WeaponFamilyPredicateView::EnergyRailgun(q) ==> (spec_weapon_view_test(p, f) <==> (f matches WeaponFamily::EnergyRailgun(d)
            && (q is None || spec_realm_view_contains(q->Some_0, d)))),
        p matches WeaponFamilyPredicateView::Ballistic(q) ==> (spec_weapon_view_test(p, f) <==> (f matches WeaponFamily::Ballistic(d)
            && (q is None || spec_realm_view_contains(q->Some_0, d)))),
        p matches WeaponFamilyPredicateView::PointDefense(q) ==> (spec_weapon_view_test(p, f) <==> (f matches WeaponFamily::PointDefense(t)
            && (q is None || q == Some(t)))),
        p matches WeaponFamilyPredicateView::StandardMissile(q) ==> (spec_weapon_view_test(p, f) <==> (f matches WeaponFamily::StandardMissile(m)
            && (q is None || q == Some(m)))),
        p is ContainerMissile ==> (spec_weapon_view_test(p, f) <==> f is ContainerMissile),
        p is LoiteringMine ==> (spec_weapon_view_test(p, f) <==> f is LoiteringMine),
        p is UnguidedRocket ==> (spec_weapon_view_test(p, f) <==> f is UnguidedRocket),
{
}

} // verus!
