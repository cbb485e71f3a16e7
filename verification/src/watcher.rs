//! The watcher: what it remembers from block to block, and what it decides at
//! each block.
//!
//! A cycle starts when a block announces that the watched core can be renewed.
//! It ends when the watcher asks for the renewal or when the priority window
//! has closed. Between cycles the watcher is idle and reads nothing.

use vstd::prelude::*;
use crate::events::{find_event, first_for};
use crate::records::{BlockRecord, BrokerConfig, Readings, RenewabilityEvent, RenewalTarget};
use crate::report::Report;
use crate::rules::{affordable, enough_funds, in_window, within_window};

verus! {

/// What the watcher remembers between blocks.
#[derive(Clone, Copy, Debug, PartialEq, Eq, Structural)]
pub struct WatcherState {
    /// A cycle is under way: the core was announced and neither renewed nor
    /// lost since.
    pub renewable: bool,
    /// The core of the last announcement taken up.
    pub core: u16,
    /// The price of the last announcement taken up.
    pub price: u128,
    /// The region start of the last announcement taken up.
    pub begin: u32,
    /// The block at which the announced sale cycle was first seen open.
    pub renewal_start: u32,
    /// `renewal_start` was recorded in the cycle under way.
    pub start_recorded: bool,
}

/// What the watcher concluded at a block.
#[derive(Clone, Copy, Debug, PartialEq, Eq, Structural)]
pub enum Verdict {
    /// No cycle is under way. Nothing was read.
    Idle,
    /// The chain holds no record of the account. Try at the next block.
    NoAccount,
    /// The chain holds no sale information yet. Try at the next block.
    NoSaleInfo,
    /// The announced sale cycle has not opened.
    NotOpen,
    /// The window is open and the account can pay: submit the renewal of
    /// `core` now. The cycle has ended.
    Renew { core: u16 },
    /// The window is open but the account cannot pay. The cycle goes on.
    Short,
    /// The window has closed. The cycle has ended without a renewal.
    Missed,
}

/// A verdict with the reports that lead to it, in the order they arose.
#[derive(Debug)]
pub struct Evaluation {
    pub verdict: Verdict,
    pub reports: Vec<Report>,
}

/// The watcher of one core.
#[derive(Clone, Copy, Debug, PartialEq, Eq, Structural)]
pub struct Watcher {
    pub target: RenewalTarget,
    pub config: BrokerConfig,
    /// What the account must keep to stay alive on the chain.
    pub existential_deposit: u128,
    pub state: WatcherState,
}

impl WatcherState {
    /// The state before anything was seen.
    pub open spec fn idle() -> WatcherState {
        WatcherState {
            renewable: false,
            core: 0,
            price: 0,
            begin: 0,
            renewal_start: 0,
            start_recorded: false,
        }
    }

    /// The state after taking up `event`. Price and region start are replaced,
    /// never added up. If no cycle was under way one starts, with its start
    /// still to be recorded; else the cycle under way keeps what it recorded.
    pub open spec fn absorb(self, event: RenewabilityEvent) -> WatcherState {
        WatcherState {
            renewable: true,
            core: event.core,
            price: event.price,
            begin: event.begin,
            renewal_start: self.renewal_start,
            start_recorded: self.renewable && self.start_recorded,
        }
    }

    /// The state after looking through `events` for `core`: the first event
    /// that names it is taken up, and without one nothing changes.
    pub open spec fn scanned(self, core: u16, events: Seq<RenewabilityEvent>) -> WatcherState {
        match first_for(events, core) {
            Some(event) => self.absorb(event),
            None => self,
        }
    }

    /// The state after comparing the sale cycle that block `number` is in with
    /// the announced one. The first block at which the two agree becomes the
    /// start of the window, once per cycle.
    pub open spec fn correlated(self, number: u32, region_begin: u32) -> WatcherState {
        if region_begin == self.begin && !self.start_recorded {
            WatcherState { renewal_start: number, start_recorded: true, ..self }
        } else {
            self
        }
    }

    /// The state with the cycle ended.
    pub open spec fn closed(self) -> WatcherState {
        WatcherState { renewable: false, ..self }
    }
}

impl Watcher {
    /// A cycle under way is one for the watched core.
    pub open spec fn consistent(self) -> bool {
        self.state.renewable ==> self.state.core == self.target.core
    }

    /// The watcher after looking through the events of a block.
    pub open spec fn after_scan(self, events: Seq<RenewabilityEvent>) -> Watcher {
        Watcher { state: self.state.scanned(self.target.core, events), ..self }
    }

    /// The report of a scan: the announcement taken up, if any.
    pub open spec fn scan_report(self, events: Seq<RenewabilityEvent>) -> Option<Report> {
        match first_for(events, self.target.core) {
            Some(event) => Some(
                Report::Renewable { core: event.core, price: event.price, begin: event.begin },
            ),
            None => None,
        }
    }

    /// Whether a cycle is under way, the account is known, and it cannot pay
    /// the price and keep the deposit.
    pub open spec fn short_of_funds(self, readings: Readings) -> bool {
        &&& self.state.renewable
        &&& readings.account is Some
        &&& !affordable(readings.account->0.free, self.state.price, self.existential_deposit)
    }

    /// The verdict at block `number`, given what was read there.
    pub open spec fn verdict_of(self, number: u32, readings: Readings) -> Verdict {
        if !self.state.renewable {
            Verdict::Idle
        } else if readings.account is None {
            Verdict::NoAccount
        } else if readings.sale is None {
            Verdict::NoSaleInfo
        } else {
            let state = self.state.correlated(number, readings.sale->0.region_begin);
            if readings.sale->0.region_begin < state.begin {
                Verdict::NotOpen
            } else if !within_window(number, state.renewal_start, self.config.interlude_length) {
                Verdict::Missed
            } else if self.short_of_funds(readings) {
                Verdict::Short
            } else {
                Verdict::Renew { core: state.core }
            }
        }
    }

    /// The watcher after the evaluation at block `number`. Without both
    /// readings nothing changes. With them the window's start is recorded if
    /// it is due, and a renewal or a closed window ends the cycle.
    pub open spec fn after_evaluation(self, number: u32, readings: Readings) -> Watcher {
        match self.verdict_of(number, readings) {
            Verdict::Idle | Verdict::NoAccount | Verdict::NoSaleInfo => self,
            Verdict::NotOpen | Verdict::Short => Watcher {
                state: self.state.correlated(number, readings.sale->0.region_begin),
                ..self
            },
            Verdict::Renew { .. } | Verdict::Missed => Watcher {
                state: self.state.correlated(number, readings.sale->0.region_begin).closed(),
                ..self
            },
        }
    }

    /// The reports of the evaluation at block `number`: first the shortfall,
    /// whenever the account is known and cannot pay, then what the verdict
    /// itself has to say.
    pub open spec fn reports_of(self, number: u32, readings: Readings) -> Seq<Report> {
        let shortfall = Report::FundsShort {
            free: readings.account->0.free,
            price: self.state.price,
        };
        let early = if self.short_of_funds(readings) {
            seq![shortfall]
        } else {
            seq![]
        };
        let late = match self.verdict_of(number, readings) {
            Verdict::Renew { core } => seq![Report::Attempting { core }],
            Verdict::Short => seq![shortfall],
            Verdict::Missed => seq![Report::WindowMissed { core: self.state.core }],
            _ => seq![],
        };
        early + late
    }

    /// The watcher after a whole block: scan, then evaluation.
    pub open spec fn after_block(self, block: BlockRecord) -> Watcher {
        self.after_scan(block.events@).after_evaluation(block.number, block.readings)
    }

    /// The verdict at a whole block.
    pub open spec fn block_verdict(self, block: BlockRecord) -> Verdict {
        self.after_scan(block.events@).verdict_of(block.number, block.readings)
    }

    /// The reports of a whole block: the scan's, then the evaluation's.
    pub open spec fn block_reports(self, block: BlockRecord) -> Seq<Report> {
        let scanned = self.after_scan(block.events@);
        let evaluated = scanned.reports_of(block.number, block.readings);
        match self.scan_report(block.events@) {
            Some(report) => seq![report] + evaluated,
            None => evaluated,
        }
    }

    /// An idle watcher of `target`.
    pub fn new(target: RenewalTarget, config: BrokerConfig, existential_deposit: u128) -> (watcher:
        Watcher)
        ensures
            watcher.target == target,
            watcher.config == config,
            watcher.existential_deposit == existential_deposit,
            watcher.state == WatcherState::idle(),
            watcher.consistent(),
    {
        Watcher {
            target,
            config,
            existential_deposit,
            state: WatcherState {
                renewable: false,
                core: 0,
                price: 0,
                begin: 0,
                renewal_start: 0,
                start_recorded: false,
            },
        }
    }

    /// Looks through the events of a block. The first one that names the
    /// watched core is taken up and reported; events for other cores change
    /// nothing.
    pub fn scan(&mut self, events: &Vec<RenewabilityEvent>) -> (report: Option<Report>)
        ensures
            *final(self) == old(self).after_scan(events@),
            report == old(self).scan_report(events@),
            first_for(events@, old(self).target.core) is None ==> *final(self) == *old(self),
            old(self).consistent() ==> final(self).consistent(),
    {
        match find_event(events, self.target.core) {
            Some(event) => {
                proof {
                    crate::events::lemma_first_for(events@, self.target.core);
                }
                self.state = WatcherState {
                    renewable: true,
                    core: event.core,
                    price: event.price,
                    begin: event.begin,
                    renewal_start: self.state.renewal_start,
                    start_recorded: self.state.renewable && self.state.start_recorded,
                };
                Some(Report::Renewable { core: event.core, price: event.price, begin: event.begin })
            },
            None => None,
        }
    }

    /// Decides what to do at block `number` with what was read there.
    ///
    /// The renewal is asked for exactly when a cycle is under way, both
    /// readings are there, the announced sale cycle has opened, the block lies
    /// in the window, and the account can pay the price and keep the deposit.
    /// Asking ends the cycle, so one cycle asks once.
    pub fn evaluate(&mut self, number: u32, readings: Readings) -> (evaluation: Evaluation)
        ensures
            *final(self) == old(self).after_evaluation(number, readings),
            evaluation.verdict == old(self).verdict_of(number, readings),
            evaluation.reports@ == old(self).reports_of(number, readings),
            old(self).consistent() ==> final(self).consistent(),
    {
        let mut reports: Vec<Report> = Vec::new();
        if !self.state.renewable {
            assert(reports@ =~= self.reports_of(number, readings));
            return Evaluation { verdict: Verdict::Idle, reports };
        }
        let account = match readings.account {
            Some(account) => account,
            None => {
                assert(reports@ =~= self.reports_of(number, readings));
                return Evaluation { verdict: Verdict::NoAccount, reports };
            },
        };
        let enough = enough_funds(account.free, self.state.price, self.existential_deposit);
        let shortfall = Report::FundsShort { free: account.free, price: self.state.price };
        if !enough {
            reports.push(shortfall);
        }
        let sale = match readings.sale {
            Some(sale) => sale,
            None => {
                assert(reports@ =~= self.reports_of(number, readings));
                return Evaluation { verdict: Verdict::NoSaleInfo, reports };
            },
        };
        let ghost before = *self;
        if sale.region_begin == self.state.begin && !self.state.start_recorded {
            self.state.renewal_start = number;
            self.state.start_recorded = true;
        }
        assert(self.state == before.state.correlated(number, sale.region_begin));
        let verdict = if sale.region_begin < self.state.begin {
            Verdict::NotOpen
        } else if !in_window(number, self.state.renewal_start, self.config.interlude_length) {
            reports.push(Report::WindowMissed { core: self.state.core });
            self.state.renewable = false;
            Verdict::Missed
        } else if !enough {
            reports.push(shortfall);
            Verdict::Short
        } else {
            reports.push(Report::Attempting { core: self.state.core });
            self.state.renewable = false;
            Verdict::Renew { core: self.state.core }
        };
        assert(reports@ =~= before.reports_of(number, readings));
        Evaluation { verdict, reports }
    }

    /// Handles a whole block: scan, then evaluation.
    pub fn step(&mut self, block: &BlockRecord) -> (evaluation: Evaluation)
        ensures
            *final(self) == old(self).after_block(*block),
            evaluation.verdict == old(self).block_verdict(*block),
            evaluation.reports@ == old(self).block_reports(*block),
            old(self).consistent() ==> final(self).consistent(),
    {
        let found = self.scan(&block.events);
        let evaluated = self.evaluate(block.number, block.readings);
        match found {
            Some(report) => {
                let mut reports: Vec<Report> = Vec::new();
                reports.push(report);
                let mut later = evaluated.reports;
                reports.append(&mut later);
                assert(reports@ =~= old(self).block_reports(*block));
                Evaluation { verdict: evaluated.verdict, reports }
            },
            None => evaluated,
        }
    }
}

/// The affordability gate: a renewal is never asked for unless the account is
/// known and holds the price and the deposit that must stay.
pub proof fn lemma_renewal_is_affordable(watcher: Watcher, number: u32, readings: Readings)
    ensures
        watcher.verdict_of(number, readings) is Renew ==> readings.account is Some && affordable(
            readings.account->0.free,
            watcher.state.price,
            watcher.existential_deposit,
        ),
        watcher.verdict_of(number, readings) is Renew ==> watcher.reports_of(number, readings)
            == seq![Report::Attempting { core: watcher.state.core }],
{
    if watcher.verdict_of(number, readings) is Renew {
        assert(watcher.reports_of(number, readings) =~= seq![
            Report::Attempting { core: watcher.state.core },
        ]);
    }
}

/// The same gate for a whole block: the price is the one in force after the
/// block's own events were looked through.
pub proof fn lemma_block_renewal_is_affordable(watcher: Watcher, block: BlockRecord)
    ensures
        watcher.block_verdict(block) is Renew ==> block.readings.account is Some && affordable(
            block.readings.account->0.free,
            watcher.after_scan(block.events@).state.price,
            watcher.existential_deposit,
        ),
{
    lemma_renewal_is_affordable(watcher.after_scan(block.events@), block.number, block.readings);
}

/// The window closes after its last block. With the sale cycle open, the
/// account able to pay and the window's start at `start`, the block numbered
/// `start + interlude_length` asks for the renewal, and the block after it
/// gives the core up instead. Either way the cycle ends.
pub proof fn lemma_window_is_inclusive(watcher: Watcher, number: u32, readings: Readings, start: u32)
    requires
        watcher.state.renewable,
        readings.account is Some,
        readings.sale is Some,
        readings.sale->0.region_begin >= watcher.state.begin,
        affordable(readings.account->0.free, watcher.state.price, watcher.existential_deposit),
        watcher.state.correlated(number, readings.sale->0.region_begin).renewal_start == start,
    ensures
        number == start + watcher.config.interlude_length ==> watcher.verdict_of(number, readings)
            == (Verdict::Renew { core: watcher.state.core }),
        number == start + watcher.config.interlude_length + 1 ==> watcher.verdict_of(
            number,
            readings,
        ) == Verdict::Missed,
        number <= start + watcher.config.interlude_length + 1 ==> !watcher.after_evaluation(
            number,
            readings,
        ).state.renewable,
{
}

/// The window's start is recorded once per cycle: while a cycle is under way
/// and its start is on record, no block moves it, whatever the block
/// announces and whatever is read at it.
pub proof fn lemma_start_recorded_once(watcher: Watcher, block: BlockRecord)
    requires
        watcher.state.renewable,
        watcher.state.start_recorded,
    ensures
        watcher.after_block(block).state.renewal_start == watcher.state.renewal_start,
        watcher.after_block(block).state.start_recorded,
{
}

/// The start that gets recorded is the number of the first block at which the
/// sale cycle read from the chain is the announced one.
pub proof fn lemma_start_is_first_open_block(watcher: Watcher, number: u32, readings: Readings)
    requires
        watcher.state.renewable,
        !watcher.state.start_recorded,
        readings.account is Some,
        readings.sale is Some,
    ensures
        readings.sale->0.region_begin == watcher.state.begin ==> watcher.after_evaluation(
            number,
            readings,
        ).state.renewal_start == number && watcher.after_evaluation(
            number,
            readings,
        ).state.start_recorded,
        readings.sale->0.region_begin != watcher.state.begin ==> watcher.after_evaluation(
            number,
            readings,
        ).state.renewal_start == watcher.state.renewal_start && !watcher.after_evaluation(
            number,
            readings,
        ).state.start_recorded,
{
}

/// A renewal ends the cycle, and so does a closed window. An idle watcher
/// asks for nothing and stays idle until the next announcement. Hence a cycle
/// asks for at most one renewal.
pub proof fn lemma_cycle_ends_with_its_verdict(watcher: Watcher, number: u32, readings: Readings)
    ensures
        watcher.verdict_of(number, readings) is Renew || watcher.verdict_of(number, readings)
            is Missed ==> watcher.state.renewable && !watcher.after_evaluation(
            number,
            readings,
        ).state.renewable,
        !(watcher.verdict_of(number, readings) is Renew || watcher.verdict_of(number, readings)
            is Missed) ==> watcher.after_evaluation(number, readings).state.renewable
            == watcher.state.renewable,
        !watcher.state.renewable ==> watcher.verdict_of(number, readings) == Verdict::Idle
            && watcher.after_evaluation(number, readings) == watcher,
{
}

/// The latest announcement wins. Whatever an earlier block left behind, once
/// a later block announces the watched core, the price and the region start
/// of that announcement are the ones in force, and the verdict at that block
/// is the one they give: the sale cycle counts as open from the announced
/// region start on, and a renewal is asked for only if the announced price can
/// be paid.
pub proof fn lemma_latest_announcement_wins(
    watcher: Watcher,
    earlier: BlockRecord,
    later: BlockRecord,
    event: RenewabilityEvent,
)
    requires
        first_for(later.events@, watcher.target.core) == Some(event),
    ensures
        watcher.after_block(earlier).after_scan(later.events@).state.renewable,
        watcher.after_block(earlier).after_scan(later.events@).state.price == event.price,
        watcher.after_block(earlier).after_scan(later.events@).state.begin == event.begin,
        watcher.after_block(earlier).after_scan(later.events@).state.core == watcher.target.core,
        later.readings.account is Some && later.readings.sale is Some ==> (
        watcher.after_block(earlier).block_verdict(later) is NotOpen
            <==> later.readings.sale->0.region_begin < event.begin),
        watcher.after_block(earlier).block_verdict(later) is Renew ==> affordable(
            later.readings.account->0.free,
            event.price,
            watcher.existential_deposit,
        ),
{
    crate::events::lemma_first_for(later.events@, watcher.target.core);
    let after = watcher.after_block(earlier);
    assert(after.target == watcher.target);
    assert(after.existential_deposit == watcher.existential_deposit);
}

/// No interference between cores: a block whose events all name other cores
/// leaves the watcher's memory as it was and reports no announcement. If the
/// watcher was idle, the whole block changes nothing and says nothing.
pub proof fn lemma_other_cores_change_nothing(watcher: Watcher, block: BlockRecord)
    requires
        forall|j: int| 0 <= j < block.events@.len() ==> block.events@[j].core != watcher.target.core,
    ensures
        watcher.after_scan(block.events@) == watcher,
        watcher.scan_report(block.events@) is None,
        watcher.after_block(block) == watcher.after_evaluation(block.number, block.readings),
        !watcher.state.renewable ==> watcher.after_block(block) == watcher,
        !watcher.state.renewable ==> watcher.block_verdict(block) == Verdict::Idle,
        !watcher.state.renewable ==> watcher.block_reports(block) == Seq::<Report>::empty(),
{
    crate::events::lemma_first_for(block.events@, watcher.target.core);
    if !watcher.state.renewable {
        assert(watcher.block_reports(block) =~= Seq::<Report>::empty());
    }
}

} // verus!
