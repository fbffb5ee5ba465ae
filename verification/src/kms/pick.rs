//! Picking a display: the first connected connector that has a mode, on the first card that
//! has one.

use vstd::prelude::*;

use crate::kms::scanout::ROW_ALIGNMENT;
use crate::kms::DrmPick;
use crate::select;
use crate::select::Selectable;

verus! {

/// The number of the last card that is tried.
pub const LAST_CARD: u32 = 9;

/// The words in which a search that found nothing is reported.
pub const NO_DISPLAY: &'static str = "No DRM card with a connected connector/mode found";

/// The bit that marks a mode as preferred in its type.
pub const MODE_TYPE_PREFERRED: u32 = 8;

/// A display mode: its size, its refresh rate in Hz, and the bits of its type.
#[derive(Clone, Copy, Debug, PartialEq, Eq, Structural)]
pub struct ModeInfo {
    pub width: u16,
    pub height: u16,
    pub vrefresh: u32,
    pub mode_type: u32,
}

/// `drm::control::ModeTypeFlags::contains`, on the flags with these bits and on `PREFERRED`:
/// true exactly where the bit of preferred modes is set.
#[verifier::external_body]
fn drm_is_preferred(mode_type: u32) -> (preferred: bool)
    ensures
        preferred == (mode_type & MODE_TYPE_PREFERRED != 0),
{
    drm::control::ModeTypeFlags::from_bits_truncate(mode_type).contains(
        drm::control::ModeTypeFlags::PREFERRED,
    )
}

impl ModeInfo {
    /// The display prefers this mode.
    pub open spec fn preferred(self) -> bool {
        self.mode_type & MODE_TYPE_PREFERRED != 0
    }

    /// The refresh rate can be written in thousandths of a Hz.
    pub open spec fn refresh_fits(self) -> bool {
        self.vrefresh * 1000 <= u32::MAX
    }

    /// The pick of this mode on a connector.
    pub open spec fn pick(self, connector_id: u32) -> DrmPick {
        DrmPick {
            connector_id,
            width: self.width as u32,
            height: self.height as u32,
            refresh_millihz: (self.vrefresh * 1000) as u32,
        }
    }
}

/// The modes that the display prefers are wanted.
impl Selectable for ModeInfo {
    open spec fn wanted(&self) -> bool {
        self.preferred()
    }

    fn is_wanted(&self) -> bool {
        drm_is_preferred(self.mode_type)
    }
}

/// The mode to use: the first preferred one, or the first of all where none is preferred.
pub fn preferred_mode(modes: &[ModeInfo]) -> (index: usize)
    requires
        modes@.len() > 0,
    ensures
        index < modes@.len(),
        index == select::chosen(select::marks(modes@)),
        first_preferred(modes@, index as int),
{
    proof {
        the_first_preferred_mode_is_chosen(modes@);
    }
    select::choose_first(modes)
}

/// The mode at position `i` has the bit of preferred modes and none before it has, or no mode has
/// it and this is the first.
pub open spec fn first_preferred(modes: Seq<ModeInfo>, i: int) -> bool {
    &&& 0 <= i < modes.len()
    &&& forall|j: int| 0 <= j < i ==> (#[trigger] modes[j]).mode_type & 8 == 0
    &&& modes[i].mode_type & 8 != 0 || i == 0 && forall|j: int|
        0 <= j < modes.len() ==> (#[trigger] modes[j]).mode_type & 8 == 0
}

/// The mode that is chosen is the first one whose type has the bit of preferred modes, and the
/// first of all where none has it.
pub proof fn the_first_preferred_mode_is_chosen(modes: Seq<ModeInfo>)
    requires
        modes.len() > 0,
    ensures
        first_preferred(modes, select::chosen(select::marks(modes))),
        forall|i: int|
            #[trigger] first_preferred(modes, i) ==> i == select::chosen(select::marks(modes)),
{
    let marks = select::marks(modes);
    let used = select::chosen(marks);
    select::chosen_is_first_marked(marks);
    assert forall|j: int| 0 <= j < modes.len() implies #[trigger] marks[j] == ((
    modes[j].mode_type & 8) != 0) by {}
    assert forall|j: int| 0 <= j < used implies (#[trigger] modes[j]).mode_type & 8 == 0 by {
        assert(!marks[j]);
    }
    if !marks[used] {
        assert forall|j: int| 0 <= j < modes.len() implies (#[trigger] modes[j]).mode_type & 8
            == 0 by {
            assert(!marks[j]);
        }
    }
    assert forall|i: int| #[trigger] first_preferred(modes, i) implies i == used by {
        assert(0 <= used < modes.len());
        if i < used {
            assert(modes[i].mode_type & 8 == 0);
            assert(modes[used].mode_type & 8 == 0);
        } else if used < i {
            assert(modes[used].mode_type & 8 == 0);
            assert(modes[i].mode_type & 8 == 0);
        }
    }
}

/// What a connector says of itself: whether a display is connected, and its modes.
#[derive(Debug)]
pub struct ConnectorInfo {
    pub connected: bool,
    pub modes: Vec<ModeInfo>,
}

/// The content of a `ConnectorInfo`.
pub struct ConnectorView {
    pub connected: bool,
    pub modes: Seq<ModeInfo>,
}

impl View for ConnectorInfo {
    type V = ConnectorView;

    open spec fn view(&self) -> ConnectorView {
        ConnectorView { connected: self.connected, modes: self.modes@ }
    }
}

impl ConnectorView {
    /// Something can be shown on the connector.
    pub open spec fn usable(self) -> bool {
        self.connected && self.modes.len() > 0
    }

    /// The mode that is used on the connector.
    pub open spec fn mode(self) -> ModeInfo {
        self.modes[select::chosen(select::marks(self.modes))]
    }

    /// The pick of this connector, if something can be shown on it.
    pub open spec fn pick(self, connector_id: u32) -> Option<DrmPick> {
        if self.usable() {
            Some(self.mode().pick(connector_id))
        } else {
            None
        }
    }

    /// The refresh rate of the mode to use can be written in thousandths of a Hz.
    pub open spec fn refresh_fits(self) -> bool {
        self.usable() ==> self.mode().refresh_fits()
    }
}

impl ConnectorInfo {
    /// Whether the refresh rate of the mode to use can be written in thousandths of a Hz.
    pub fn refresh_fits(&self) -> (fits: bool)
        ensures
            fits == self@.refresh_fits(),
    {
        if self.connected && self.modes.len() > 0 {
            let index: usize = preferred_mode(self.modes.as_slice());
            self.modes[index].vrefresh <= u32::MAX / 1000
        } else {
            true
        }
    }

    /// The pick of this connector, if something can be shown on it.
    pub fn pick(&self, connector_id: u32) -> (pick: Option<DrmPick>)
        requires
            self@.refresh_fits(),
        ensures
            pick == self@.pick(connector_id),
            pick == (ConnectorView { connected: self.connected, modes: self.modes@ }).pick(
                connector_id,
            ),
    {
        if self.connected && self.modes.len() > 0 {
            let index: usize = preferred_mode(self.modes.as_slice());
            let mode: ModeInfo = self.modes[index];
            Some(
                DrmPick {
                    connector_id,
                    width: mode.width as u32,
                    height: mode.height as u32,
                    refresh_millihz: mode.vrefresh * 1000,
                },
            )
        } else {
            None
        }
    }
}

/// What the search does next.
#[derive(Clone, Copy, Debug, PartialEq, Eq, Structural)]
pub enum ScanAction {
    /// Open this card for reading and writing.
    OpenCard { card: u32 },
    /// List the connectors of the card that is open.
    ListConnectors,
    /// Ask this connector of the card that is open what it says of itself, and have it probed
    /// anew where that is forced.
    ProbeConnector { connector_id: u32, force: bool },
    /// Keep the card that is open: this is the pick.
    Done { pick: DrmPick },
    /// Give up: no card has a connected connector with a mode.
    Fail,
}

enum Stage {
    /// A card is to be opened.
    Open { card: u32 },
    /// The card is open; its connectors are to be listed.
    List { card: u32 },
    /// The connector at `index` is to be probed.
    Probe { card: u32, connectors: Vec<u32>, index: usize },
    /// The search has found a display.
    Picked { card: u32, pick: DrmPick },
    /// The search has found nothing.
    Exhausted,
}

/// The search for a display.
pub struct CardScan {
    stage: Stage,
}

/// The content of a `CardScan`.
pub enum ScanState {
    Open { card: u32 },
    List { card: u32 },
    Probe { card: u32, connectors: Seq<u32>, index: int },
    Picked { card: u32, pick: DrmPick },
    Exhausted,
}

impl View for CardScan {
    type V = ScanState;

    closed spec fn view(&self) -> ScanState {
        match self.stage {
            Stage::Open { card } => ScanState::Open { card: card },
            Stage::List { card } => ScanState::List { card: card },
            Stage::Probe { card, connectors, index } => ScanState::Probe {
                card: card,
                connectors: connectors@,
                index: index as int,
            },
            Stage::Picked { card, pick } => ScanState::Picked { card: card, pick: pick },
            Stage::Exhausted => ScanState::Exhausted,
        }
    }
}

/// The search once nothing was found on `card`.
pub open spec fn behind_card(card: u32) -> ScanState {
    if card < LAST_CARD {
        ScanState::Open { card: (card + 1) as u32 }
    } else {
        ScanState::Exhausted
    }
}

/// The search at the connector at `index`, or behind the card where there is none.
pub open spec fn at_connector(card: u32, connectors: Seq<u32>, index: int) -> ScanState {
    if index < connectors.len() {
        ScanState::Probe { card, connectors, index }
    } else {
        behind_card(card)
    }
}

impl ScanState {
    /// A connector that is to be probed is one of the card's.
    pub open spec fn wf(self) -> bool {
        match self {
            ScanState::Probe { connectors, index, .. } => 0 <= index < connectors.len(),
            _ => true,
        }
    }

    /// What the search does next.
    pub open spec fn wants(self) -> ScanAction {
        match self {
            ScanState::Open { card } => ScanAction::OpenCard { card },
            ScanState::List { .. } => ScanAction::ListConnectors,
            ScanState::Probe { connectors, index, .. } => ScanAction::ProbeConnector {
                connector_id: connectors[index],
                force: false,
            },
            ScanState::Picked { pick, .. } => ScanAction::Done { pick },
            ScanState::Exhausted => ScanAction::Fail,
        }
    }

    /// The search once opening the card succeeded or failed.
    pub open spec fn opened(self, ok: bool) -> ScanState {
        match self {
            ScanState::Open { card } => if ok {
                ScanState::List { card }
            } else {
                behind_card(card)
            },
            _ => self,
        }
    }

    /// The search once the connectors are listed; `None` where listing them failed.
    pub open spec fn listed(self, connectors: Option<Seq<u32>>) -> ScanState {
        match self {
            ScanState::List { card } => match connectors {
                Some(connectors) => at_connector(card, connectors, 0),
                None => behind_card(card),
            },
            _ => self,
        }
    }

    /// The search once a connector answered; `None` where asking it failed.
    pub open spec fn probed(self, info: Option<ConnectorView>) -> ScanState {
        match self {
            ScanState::Probe { card, connectors, index } => match info {
                Some(info) => match info.pick(connectors[index]) {
                    Some(pick) => ScanState::Picked { card, pick },
                    None => at_connector(card, connectors, index + 1),
                },
                None => at_connector(card, connectors, index + 1),
            },
            _ => self,
        }
    }
}

/// The content of an optional list of connectors.
pub open spec fn optional_list(connectors: Option<Vec<u32>>) -> Option<Seq<u32>> {
    match connectors {
        Some(connectors) => Some(connectors@),
        None => None,
    }
}

/// The content of an optional connector.
pub open spec fn optional_info(info: Option<&ConnectorInfo>) -> Option<ConnectorView> {
    match info {
        Some(info) => Some(info@),
        None => None,
    }
}

impl CardScan {
    /// A search that starts at the first card.
    pub fn open_card_and_pick() -> (scan: Self)
        ensures
            scan@ == (ScanState::Open { card: 0 }),
            scan@.wf(),
    {
        CardScan { stage: Stage::Open { card: 0 } }
    }

    fn behind(card: u32) -> (scan: Self)
        ensures
            scan@ == behind_card(card),
    {
        if card < LAST_CARD {
            CardScan { stage: Stage::Open { card: card + 1 } }
        } else {
            CardScan { stage: Stage::Exhausted }
        }
    }

    fn at(card: u32, connectors: Vec<u32>, index: usize) -> (scan: Self)
        ensures
            scan@ == at_connector(card, connectors@, index as int),
    {
        if index < connectors.len() {
            CardScan { stage: Stage::Probe { card, connectors, index } }
        } else {
            CardScan::behind(card)
        }
    }

    /// What to do next.
    pub fn action(&self) -> (action: ScanAction)
        requires
            self@.wf(),
        ensures
            action == self@.wants(),
    {
        match &self.stage {
            Stage::Open { card } => ScanAction::OpenCard { card: *card },
            Stage::List { .. } => ScanAction::ListConnectors,
            Stage::Probe { connectors, index, .. } => ScanAction::ProbeConnector {
                connector_id: connectors[*index],
                force: false,
            },
            Stage::Picked { pick, .. } => ScanAction::Done { pick: *pick },
            Stage::Exhausted => ScanAction::Fail,
        }
    }

    /// Takes note of whether the card could be opened.
    pub fn on_opened(self, ok: bool) -> (next: Self)
        ensures
            next@ == self@.opened(ok),
            self@.wf() ==> next@.wf(),
    {
        match self.stage {
            Stage::Open { card } => if ok {
                CardScan { stage: Stage::List { card } }
            } else {
                CardScan::behind(card)
            },
            stage => CardScan { stage },
        }
    }

    /// Takes the connectors of the card; `None` where listing them failed.
    pub fn on_connectors(self, connectors: Option<Vec<u32>>) -> (next: Self)
        ensures
            next@ == self@.listed(optional_list(connectors)),
            connectors is None ==> next@ == self@.listed(None),
            connectors matches Some(list) ==> next@ == self@.listed(Some(list@)),
            self@.wf() ==> next@.wf(),
    {
        match self.stage {
            Stage::List { card } => match connectors {
                Some(connectors) => CardScan::at(card, connectors, 0),
                None => CardScan::behind(card),
            },
            stage => CardScan { stage },
        }
    }

    /// Takes what a connector said of itself; `None` where asking it failed.
    pub fn on_connector(self, info: Option<&ConnectorInfo>) -> (next: Self)
        requires
            self@.wf(),
            info matches Some(info) ==> info@.refresh_fits(),
        ensures
            next@ == self@.probed(optional_info(info)),
            info is None ==> next@ == self@.probed(None),
            info matches Some(said) ==> next@ == self@.probed(
                Some(ConnectorView { connected: said.connected, modes: said.modes@ }),
            ),
            next@.wf(),
    {
        match self.stage {
            Stage::Probe { card, connectors, index } => {
                assert(index < connectors.len());
                let pick: Option<DrmPick> = match info {
                    Some(info) => info.pick(connectors[index]),
                    None => None,
                };
                match pick {
                    Some(pick) => CardScan { stage: Stage::Picked { card, pick } },
                    None => CardScan::at(card, connectors, index + 1),
                }
            },
            stage => CardScan { stage },
        }
    }
}

/// A card as the search finds it: whether it opens, and, where its connectors can be listed,
/// each of them with what it says of itself, if it answers.
pub struct CardView {
    pub opens: bool,
    pub connectors: Option<Seq<(u32, Option<ConnectorView>)>>,
}

/// The numbers of the connectors of a card.
pub open spec fn connector_ids(connectors: Seq<(u32, Option<ConnectorView>)>) -> Seq<u32> {
    connectors.map_values(|c: (u32, Option<ConnectorView>)| c.0)
}

/// The pick of one connector of a card.
pub open spec fn connector_pick(connector: (u32, Option<ConnectorView>)) -> Option<DrmPick> {
    match connector.1 {
        Some(info) => info.pick(connector.0),
        None => None,
    }
}

/// The first pick among the connectors at or behind `from`.
pub open spec fn first_connector_pick(
    connectors: Seq<(u32, Option<ConnectorView>)>,
    from: int,
) -> Option<DrmPick>
    decreases connectors.len() - from,
{
    if from >= connectors.len() {
        None
    } else if connector_pick(connectors[from]) is Some {
        connector_pick(connectors[from])
    } else {
        first_connector_pick(connectors, from + 1)
    }
}

/// The pick of a card: that of its first connector that has one.
pub open spec fn card_pick(card: CardView) -> Option<DrmPick> {
    if !card.opens {
        None
    } else {
        match card.connectors {
            Some(connectors) => first_connector_pick(connectors, 0),
            None => None,
        }
    }
}

/// Where a search ends: at the first card at or behind `from` that has a pick.
pub open spec fn first_card_pick(cards: Seq<CardView>, from: u32) -> ScanState
    decreases LAST_CARD + 1 - from,
{
    if from > LAST_CARD {
        ScanState::Exhausted
    } else {
        match card_pick(cards[from as int]) {
            Some(pick) => ScanState::Picked { card: from, pick },
            None => first_card_pick(cards, (from + 1) as u32),
        }
    }
}

impl ScanState {
    /// The connector that is to be probed is the one at this place of its card.
    pub open spec fn matches(self, cards: Seq<CardView>) -> bool {
        match self {
            ScanState::Open { card } => card <= LAST_CARD,
            ScanState::List { card } => card <= LAST_CARD && cards[card as int].opens,
            ScanState::Probe { card, connectors, index } => {
                &&& card <= LAST_CARD
                &&& cards[card as int].opens
                &&& cards[card as int].connectors matches Some(listed)
                &&& connectors == connector_ids(listed)
                &&& 0 <= index < connectors.len()
            },
            _ => true,
        }
    }

    /// The search once the action that it wants was carried out on these cards.
    pub open spec fn answered(self, cards: Seq<CardView>) -> ScanState {
        match self {
            ScanState::Open { card } => self.opened(cards[card as int].opens),
            ScanState::List { card } => self.listed(
                match cards[card as int].connectors {
                    Some(listed) => Some(connector_ids(listed)),
                    None => None,
                },
            ),
            ScanState::Probe { card, index, .. } => self.probed(
                cards[card as int].connectors.unwrap()[index].1,
            ),
            _ => self,
        }
    }

    /// Where the search ends on these cards, from this state on.
    pub open spec fn ends_at(self, cards: Seq<CardView>) -> ScanState {
        match self {
            ScanState::Open { card } => first_card_pick(cards, card),
            ScanState::List { card } => first_card_pick(cards, card),
            ScanState::Probe { card, index, .. } => match first_connector_pick(
                cards[card as int].connectors.unwrap(),
                index,
            ) {
                Some(pick) => ScanState::Picked { card, pick },
                None => first_card_pick(cards, (card + 1) as u32),
            },
            _ => self,
        }
    }

    /// The search after at most `steps` actions on these cards.
    pub open spec fn after(self, cards: Seq<CardView>, steps: nat) -> ScanState
        decreases steps,
    {
        if steps == 0 {
            self
        } else {
            self.answered(cards).after(cards, (steps - 1) as nat)
        }
    }

    /// The search is over.
    pub open spec fn over(self) -> bool {
        self is Picked || self is Exhausted
    }
}

proof fn end_behind_card(card: u32, cards: Seq<CardView>)
    requires
        card <= LAST_CARD,
    ensures
        behind_card(card).matches(cards),
        behind_card(card).ends_at(cards) == first_card_pick(cards, (card + 1) as u32),
        actions_left(behind_card(card), cards) == actions_from(cards, (card + 1) as u32),
{
    if card == LAST_CARD {
        assert(first_card_pick(cards, (card + 1) as u32) == ScanState::Exhausted);
        assert(actions_from(cards, (card + 1) as u32) == 0);
    }
}

/// The card that the search is at, where it is at one.
pub open spec fn current_card(state: ScanState) -> Option<u32> {
    match state {
        ScanState::Open { card } => Some(card),
        ScanState::List { card } => Some(card),
        ScanState::Probe { card, .. } => Some(card),
        _ => None,
    }
}

#[verifier::spinoff_prover]
proof fn answer_keeps_the_end(state: ScanState, cards: Seq<CardView>)
    requires
        cards.len() == LAST_CARD + 1,
        state.matches(cards),
    ensures
        state.answered(cards).matches(cards),
        state.answered(cards).ends_at(cards) == state.ends_at(cards),
{
    if let Some(card) = current_card(state) {
        end_behind_card(card, cards);
    }
    if let ScanState::Probe { card, connectors, index } = state {
        let listed = cards[card as int].connectors.unwrap();
        assert(connectors[index] == listed[index].0);
        assert(index + 1 >= listed.len() ==> first_connector_pick(listed, index + 1) is None);
    }
}

/// How many actions a search can still want on these cards.
pub open spec fn actions_left(state: ScanState, cards: Seq<CardView>) -> nat {
    match state {
        ScanState::Open { card } => actions_from(cards, card),
        ScanState::List { card } => (actions_from(cards, card) - 1) as nat,
        ScanState::Probe { card, connectors, index } => (connectors.len() - index + actions_from(
            cards,
            (card + 1) as u32,
        )) as nat,
        _ => 0,
    }
}

/// How many actions a search can want on the cards at or behind `card`.
pub open spec fn actions_from(cards: Seq<CardView>, card: u32) -> nat
    decreases LAST_CARD + 1 - card,
{
    if card > LAST_CARD {
        0
    } else {
        2 + (match cards[card as int].connectors {
            Some(connectors) => connectors.len(),
            None => 0,
        }) + actions_from(cards, (card + 1) as u32)
    }
}

#[verifier::spinoff_prover]
proof fn answer_makes_progress(state: ScanState, cards: Seq<CardView>)
    requires
        cards.len() == LAST_CARD + 1,
        state.matches(cards),
        !state.over(),
    ensures
        actions_left(state.answered(cards), cards) < actions_left(state, cards),
{
    if let Some(card) = current_card(state) {
        end_behind_card(card, cards);
    }
}

proof fn search_ends(state: ScanState, cards: Seq<CardView>, steps: nat)
    requires
        cards.len() == LAST_CARD + 1,
        state.matches(cards),
        steps >= actions_left(state, cards),
    ensures
        state.after(cards, steps).over(),
        state.after(cards, steps) == state.ends_at(cards),
    decreases steps,
{
    if state.over() {
        if steps > 0 {
            search_ends(state, cards, (steps - 1) as nat);
        }
    } else {
        answer_makes_progress(state, cards);
        answer_keeps_the_end(state, cards);
        search_ends(state.answered(cards), cards, (steps - 1) as nat);
    }
}

/// Whatever the cards are, the search comes to an end, and it ends with the pick of the first
/// connector that has one on the first card that has one, or, where no card has one, with
/// nothing.
pub proof fn search_finds_the_first_display(cards: Seq<CardView>)
    requires
        cards.len() == LAST_CARD + 1,
    ensures
        exists|steps: nat|
            (#[trigger] (ScanState::Open { card: 0 }).after(cards, steps)).over(),
        forall|steps: nat|
            (#[trigger] (ScanState::Open { card: 0 }).after(cards, steps)).over()
                ==> (ScanState::Open { card: 0 }).after(cards, steps) == first_card_pick(cards, 0),
{
    let start = ScanState::Open { card: 0 };
    search_ends(start, cards, actions_left(start, cards));
    assert forall|steps: nat| (#[trigger] start.after(cards, steps)).over() implies start.after(
        cards,
        steps,
    ) == first_card_pick(cards, 0) by {
        end_is_kept(start, cards, steps);
    }
}

proof fn end_is_kept(state: ScanState, cards: Seq<CardView>, steps: nat)
    requires
        cards.len() == LAST_CARD + 1,
        state.matches(cards),
    ensures
        state.after(cards, steps).matches(cards),
        state.after(cards, steps).ends_at(cards) == state.ends_at(cards),
    decreases steps,
{
    if steps > 0 {
        answer_keeps_the_end(state, cards);
        end_is_kept(state.answered(cards), cards, (steps - 1) as nat);
    }
}

proof fn connector_picks_are_in_range(
    connectors: Seq<(u32, Option<ConnectorView>)>,
    from: int,
)
    ensures
        first_connector_pick(connectors, from) matches Some(pick) ==> pick.width <= u16::MAX
            && pick.height <= u16::MAX,
    decreases connectors.len() - from,
{
    if from < connectors.len() {
        connector_picks_are_in_range(connectors, from + 1);
    }
}

proof fn card_picks_are_in_range(cards: Seq<CardView>, from: u32)
    ensures
        first_card_pick(cards, from) matches ScanState::Picked { pick, .. } ==> pick.width
            <= u16::MAX && pick.height <= u16::MAX,
    decreases LAST_CARD + 1 - from,
{
    if from <= LAST_CARD {
        if let Some(connectors) = cards[from as int].connectors {
            connector_picks_are_in_range(connectors, 0);
        }
        card_picks_are_in_range(cards, (from + 1) as u32);
    }
}

/// A display that the search finds is no wider than a presenter can be set up for.
pub proof fn found_displays_can_be_set_up(cards: Seq<CardView>)
    ensures
        first_card_pick(cards, 0) matches ScanState::Picked { pick, .. } ==> 4 * pick.width
            + ROW_ALIGNMENT - 1 <= u32::MAX,
{
    card_picks_are_in_range(cards, 0);
}

/// The pick is the size of a mode of the connector, with 1000 times its refresh rate.
pub open spec fn picks_mode(pick: DrmPick, connector_id: u32, mode: ModeInfo) -> bool {
    &&& pick.connector_id == connector_id
    &&& pick.width == mode.width
    &&& pick.height == mode.height
    &&& 1000 * mode.vrefresh <= u32::MAX ==> pick.refresh_millihz == 1000 * mode.vrefresh
}

/// A connector has a pick exactly where a display is connected and there is a mode. The pick is
/// that of the first mode with the bit of preferred modes, or of the first mode of all where none
/// has it; and it is the refresh rate of that mode that has to fit.
pub proof fn a_pick_is_the_preferred_mode(info: ConnectorView, connector_id: u32)
    ensures
        info.pick(connector_id) is Some <==> info.connected && info.modes.len() > 0,
        info.pick(connector_id) matches Some(pick) ==> exists|i: int| #[trigger]
            first_preferred(info.modes, i) && picks_mode(pick, connector_id, info.modes[i]),
        forall|i: int|
            info.connected && #[trigger] first_preferred(info.modes, i) ==> (info.refresh_fits()
                <==> 1000 * info.modes[i].vrefresh <= u32::MAX),
        !info.connected || info.modes.len() == 0 ==> info.refresh_fits(),
{
    if info.modes.len() > 0 {
        the_first_preferred_mode_is_chosen(info.modes);
    }
}

/// Connector `k` of card `c` shows something: the card opens and lists it, it answers, a display
/// is connected, and there is a mode.
pub open spec fn shows(cards: Seq<CardView>, c: int, k: int) -> bool {
    &&& 0 <= c < cards.len()
    &&& cards[c].opens
    &&& cards[c].connectors matches Some(connectors)
    &&& 0 <= k < connectors.len()
    &&& connectors[k].1 matches Some(info)
    &&& info.connected
    &&& info.modes.len() > 0
}

/// No connector before connector `k` of card `c` shows something.
pub open spec fn nothing_before(cards: Seq<CardView>, c: int, k: int) -> bool {
    forall|c2: int, k2: int| #[trigger]
        shows(cards, c2, k2) ==> c2 > c || (c2 == c && k2 >= k)
}

/// The pick is that of connector `k` of card `c`.
pub open spec fn picks(cards: Seq<CardView>, c: int, k: int, pick: DrmPick) -> bool {
    let connector = cards[c].connectors.unwrap()[k];
    exists|i: int| #[trigger]
        first_preferred(connector.1.unwrap().modes, i) && picks_mode(
            pick,
            connector.0,
            connector.1.unwrap().modes[i],
        )
}

/// Connector `k` of card `c` is the first that shows something, and the pick is its pick.
pub open spec fn first_shown(cards: Seq<CardView>, c: int, k: int, pick: DrmPick) -> bool {
    &&& shows(cards, c, k)
    &&& nothing_before(cards, c, k)
    &&& picks(cards, c, k, pick)
}

/// Card `c` has the first connector that shows something, and the pick is its pick.
pub open spec fn found_on(cards: Seq<CardView>, c: int, pick: DrmPick) -> bool {
    exists|k: int| first_shown(cards, c, k, pick)
}

/// No connector of any card shows something.
pub open spec fn nothing_shown(cards: Seq<CardView>) -> bool {
    forall|c: int, k: int| !(#[trigger] shows(cards, c, k))
}

/// The state holds what the search has learnt of the cards so far.
pub open spec fn learnt(state: ScanState, cards: Seq<CardView>) -> bool {
    &&& state.matches(cards)
    &&& match state {
        ScanState::Open { card } => nothing_before(cards, card as int, 0),
        ScanState::List { card } => nothing_before(cards, card as int, 0),
        ScanState::Probe { card, index, .. } => nothing_before(cards, card as int, index),
        ScanState::Picked { card, pick } => found_on(cards, card as int, pick),
        ScanState::Exhausted => nothing_shown(cards),
    }
}

proof fn learnt_behind_card(card: u32, cards: Seq<CardView>)
    requires
        cards.len() == 10,
        card < 10,
        nothing_before(cards, card as int, 0),
        forall|k: int| !(#[trigger] shows(cards, card as int, k)),
    ensures
        learnt(behind_card(card), cards),
{
    assert(nothing_before(cards, card + 1, 0));
}

proof fn learnt_behind_later(card: u32, cards: Seq<CardView>)
    requires
        cards.len() == 10,
        card < 10,
        forall|c: int, k: int| #[trigger] shows(cards, c, k) ==> c > card,
    ensures
        learnt(behind_card(card), cards),
{
    assert(nothing_before(cards, card as int, 0));
    learnt_behind_card(card, cards);
}

proof fn probe_keeps_learnt(card: u32, connectors: Seq<u32>, index: int, cards: Seq<CardView>)
    requires
        cards.len() == 10,
        learnt(ScanState::Probe { card, connectors, index }, cards),
    ensures
        learnt((ScanState::Probe { card, connectors, index }).answered(cards), cards),
{
    let state = ScanState::Probe { card, connectors, index };
    let listed = cards[card as int].connectors.unwrap();
    assert(connectors[index] == listed[index].0);
    if let Some(info) = listed[index].1 {
        a_pick_is_the_preferred_mode(info, connectors[index]);
    }
    if shows(cards, card as int, index) {
        let info = listed[index].1.unwrap();
        let pick = info.pick(connectors[index]).unwrap();
        assert(state.answered(cards) == (ScanState::Picked { card, pick }));
        assert(first_shown(cards, card as int, index, pick));
        assert(found_on(cards, card as int, pick));
    } else {
        assert(state.answered(cards) == at_connector(card, connectors, index + 1));
        if index + 1 < connectors.len() {
            assert(nothing_before(cards, card as int, index + 1));
        } else {
            assert forall|c: int, k: int| #[trigger] shows(cards, c, k) implies c > card by {
                if c == card {
                    assert(k >= index);
                }
            }
            learnt_behind_later(card, cards);
        }
    }
}

proof fn list_keeps_learnt(card: u32, cards: Seq<CardView>)
    requires
        cards.len() == 10,
        learnt(ScanState::List { card }, cards),
    ensures
        learnt((ScanState::List { card }).answered(cards), cards),
{
    let state = ScanState::List { card };
    match cards[card as int].connectors {
        Some(listed) => {
            assert(state.answered(cards) == at_connector(card, connector_ids(listed), 0));
            if listed.len() == 0 {
                learnt_behind_card(card, cards);
            }
        },
        None => {
            learnt_behind_card(card, cards);
        },
    }
}

proof fn open_keeps_learnt(card: u32, cards: Seq<CardView>)
    requires
        cards.len() == 10,
        learnt(ScanState::Open { card }, cards),
    ensures
        learnt((ScanState::Open { card }).answered(cards), cards),
{
    if !cards[card as int].opens {
        learnt_behind_card(card, cards);
    }
}

proof fn answer_keeps_learnt(state: ScanState, cards: Seq<CardView>)
    requires
        cards.len() == 10,
        learnt(state, cards),
    ensures
        learnt(state.answered(cards), cards),
{
    if let ScanState::Open { card } = state {
        open_keeps_learnt(card, cards);
    } else if let ScanState::List { card } = state {
        list_keeps_learnt(card, cards);
    } else if let ScanState::Probe { card, connectors, index } = state {
        probe_keeps_learnt(card, connectors, index, cards);
    }
}

proof fn search_learns(state: ScanState, cards: Seq<CardView>, steps: nat)
    requires
        cards.len() == 10,
        learnt(state, cards),
    ensures
        learnt(state.after(cards, steps), cards),
    decreases steps,
{
    if steps > 0 {
        answer_keeps_learnt(state, cards);
        search_learns(state.answered(cards), cards, (steps - 1) as nat);
    }
}

/// The connector with this number is connector `k` of card `c`, which opens, and nothing before it
/// shows something.
pub open spec fn probes_first(cards: Seq<CardView>, c: int, k: int, connector_id: u32) -> bool {
    &&& 0 <= c < cards.len()
    &&& cards[c].opens
    &&& cards[c].connectors matches Some(connectors)
    &&& 0 <= k < connectors.len()
    &&& connectors[k].0 == connector_id
    &&& nothing_before(cards, c, k)
}

/// Some connector has this number, and nothing before it shows something.
pub open spec fn is_next(cards: Seq<CardView>, connector_id: u32) -> bool {
    exists|c: int, k: int| probes_first(cards, c, k, connector_id)
}

/// The pick is that of the first connector of all that shows something.
pub open spec fn is_first_display(cards: Seq<CardView>, pick: DrmPick) -> bool {
    exists|c: int| found_on(cards, c, pick)
}

/// What the search reports, in terms of the ten cards alone. It is done only with the first
/// connector that shows something on the first card that has one: the pick has the number of that
/// connector, and the size and 1000 times the refresh rate of its first preferred mode. It gives
/// up only where no connector of any card shows something. And as long as it opens cards or probes
/// connectors, nothing that it has passed shows something.
pub proof fn the_search_reports_the_first_display(cards: Seq<CardView>, steps: nat)
    requires
        cards.len() == 10,
    ensures
        (ScanState::Open { card: 0 }).after(cards, steps).wants() matches ScanAction::OpenCard {
            card,
        } ==> card < 10 && nothing_before(cards, card as int, 0),
        (ScanState::Open { card: 0 }).after(
            cards,
            steps,
        ).wants() matches ScanAction::ProbeConnector { connector_id, force } ==> !force && is_next(
            cards,
            connector_id,
        ),
        (ScanState::Open { card: 0 }).after(cards, steps).wants() matches ScanAction::Done {
            pick,
        } ==> is_first_display(cards, pick),
        (ScanState::Open { card: 0 }).after(cards, steps).wants() is Fail ==> nothing_shown(cards),
        exists|n: nat| ends(#[trigger] (ScanState::Open { card: 0 }).after(cards, n).wants()),
{
    let start = ScanState::Open { card: 0 };
    let state = start.after(cards, steps);
    assert(nothing_before(cards, 0, 0));
    search_learns(start, cards, steps);
    match state {
        ScanState::Probe { card, connectors, index } => {
            let listed = cards[card as int].connectors.unwrap();
            assert(connectors[index] == listed[index].0);
            assert(probes_first(cards, card as int, index, connectors[index]));
            assert(is_next(cards, connectors[index]));
        },
        ScanState::Picked { card, pick } => {
            assert(found_on(cards, card as int, pick));
            assert(is_first_display(cards, pick));
        },
        _ => {},
    }
    search_finds_the_first_display(cards);
    let n = choose|n: nat| (#[trigger] start.after(cards, n)).over();
    assert(ends(start.after(cards, n).wants()));
}

/// The search is over with this action.
pub open spec fn ends(action: ScanAction) -> bool {
    action is Done || action is Fail
}

/// Where the search goes once nothing was found on card `card`: to the next of the ten, or to
/// giving up behind the last.
pub open spec fn next_card_or_fail(card: int) -> ScanAction {
    if card < 9 {
        ScanAction::OpenCard { card: (card + 1) as u32 }
    } else {
        ScanAction::Fail
    }
}

/// The cards are opened one after the other from 0 to 9. A card that does not open, does not
/// list its connectors or has none is left for the next; else its connectors are probed from the
/// first on, without a forced probe, and the card is left for the next behind the last of them.
pub proof fn the_search_goes_card_by_card(card: u32, connectors: Seq<u32>, index: int)
    requires
        card < 10,
        0 <= index < connectors.len(),
    ensures
        (ScanState::Open { card: 0 }).wants() == (ScanAction::OpenCard { card: 0 }),
        ({
            let closed = ScanState::Open { card };
            let open = closed.opened(true);
            let probing = ScanState::Probe { card, connectors, index };
            &&& closed.wants() == (ScanAction::OpenCard { card })
            &&& closed.opened(false).wants() == next_card_or_fail(card as int)
            &&& open.wants() == ScanAction::ListConnectors
            &&& open.listed(None).wants() == next_card_or_fail(card as int)
            &&& open.listed(Some(Seq::empty())).wants() == next_card_or_fail(card as int)
            &&& open.listed(Some(connectors)) == (ScanState::Probe { card, connectors, index: 0 })
            &&& probing.wants() == (ScanAction::ProbeConnector {
                connector_id: connectors[index],
                force: false,
            })
            &&& probing.probed(None).wants() == (if index + 1 < connectors.len() {
                ScanAction::ProbeConnector { connector_id: connectors[index + 1], force: false }
            } else {
                next_card_or_fail(card as int)
            })
            &&& forall|info: ConnectorView|
                !(info.connected && info.modes.len() > 0) ==> #[trigger] probing.probed(Some(info))
                    == probing.probed(None)
            &&& forall|info: ConnectorView|
                info.connected && info.modes.len() > 0 ==> (#[trigger] probing.probed(
                    Some(info),
                )).wants() is Done
        }),
        forall|state: ScanState, ok: bool|
            state.wants() is Done || state.wants() is Fail ==> #[trigger] state.opened(ok) == state,
{
}

/// A search that found nothing says so in these words.
pub proof fn a_search_without_a_display_says_so()
    ensures
        NO_DISPLAY@ == "No DRM card with a connected connector/mode found"@,
{
}

} // verus!
