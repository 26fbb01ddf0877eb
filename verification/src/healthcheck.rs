//! A record of what was checked while the environment was examined, and how
//! each check ended.
//!
//! The report only collects: whoever shows it to the user takes the events
//! out with [`HealthReport::drain`].

use vstd::prelude::*;
use crate::issue_tracker::UpstreamError;
use crate::issue_tracker::error_text;

verus! {

/// How one check ended.
#[derive(Debug)]
pub enum ComponentState {
    Pass(Option<String>),
    Info(String),
    Warning(String),
    Error(String),
}

pub enum ComponentStateView {
    Pass(Option<Seq<char>>),
    Info(Seq<char>),
    Warning(Seq<char>),
    Error(Seq<char>),
}

impl View for ComponentState {
    type V = ComponentStateView;

    open spec fn view(&self) -> ComponentStateView {
        match self {
            ComponentState::Pass(Some(t)) => ComponentStateView::Pass(Some(t@)),
            ComponentState::Pass(None) => ComponentStateView::Pass(None),
            ComponentState::Info(t) => ComponentStateView::Info(t@),
            ComponentState::Warning(t) => ComponentStateView::Warning(t@),
            ComponentState::Error(t) => ComponentStateView::Error(t@),
        }
    }
}

/// One thing that a report has to show.
#[derive(Debug)]
pub enum HealthEvent {
    /// A new section begins, under this heading.
    Section(String),
    /// The check of this name ended in this state.
    Checked(String, ComponentState),
}

pub enum HealthEventView {
    Section(Seq<char>),
    Checked(Seq<char>, ComponentStateView),
}

impl View for HealthEvent {
    type V = HealthEventView;

    open spec fn view(&self) -> HealthEventView {
        match self {
            HealthEvent::Section(h) => HealthEventView::Section(h@),
            HealthEvent::Checked(n, s) => HealthEventView::Checked(n@, s@),
        }
    }
}

/// The views of a sequence of events.
pub open spec fn event_views(events: Seq<HealthEvent>) -> Seq<HealthEventView> {
    Seq::new(events.len(), |i: int| events[i]@)
}

/// The width that a section heading is padded to.
pub const HEADING_WIDTH: usize = 80;

/// How many dashes stand on each side of a heading whose text takes `len` bytes.
pub open spec fn heading_padding(len: nat) -> nat {
    if len + 2 <= HEADING_WIDTH {
        ((HEADING_WIDTH - (len + 2)) / 2) as nat
    } else {
        0
    }
}

/// `n` dashes.
pub open spec fn dashes(n: nat) -> Seq<char> {
    Seq::new(n, |i: int| '-')
}

/// A heading between two runs of dashes.
pub open spec fn heading_line(padding: nat, text: Seq<char>) -> Seq<char> {
    dashes(padding) + seq![' '] + text + seq![' '] + dashes(padding)
}

/// The report of a health check.
pub struct HealthReport {
    context: String,
    is_silent: bool,
    events: Vec<HealthEvent>,
}

impl HealthReport {
    /// The section that checks are filed under.
    pub closed spec fn context(&self) -> Seq<char> {
        self.context@
    }

    /// Whether the report drops what it is told.
    pub closed spec fn is_quiet(&self) -> bool {
        self.is_silent
    }

    /// What the report has collected and not yet handed out.
    pub closed spec fn pending(&self) -> Seq<HealthEventView> {
        event_views(self.events@)
    }

    /// A report that collects, with `ctx` as its first section.
    pub fn new(ctx: &str) -> (r: Self)
        ensures
            r.context() == ctx@,
            !r.is_quiet(),
            r.pending() == Seq::<HealthEventView>::empty(),
    {
        let r = Self { context: crate::text::owned(ctx), is_silent: false, events: Vec::new() };
        assert(r.pending() =~= Seq::<HealthEventView>::empty());
        r
    }

    /// A report that drops everything.
    pub fn silent() -> (r: Self)
        ensures
            r.context() == Seq::<char>::empty(),
            r.is_quiet(),
            r.pending() == Seq::<HealthEventView>::empty(),
    {
        let r = Self { context: String::new(), is_silent: true, events: Vec::new() };
        assert(r.pending() =~= Seq::<HealthEventView>::empty());
        r
    }

    /// Begins a new section.
    pub fn set_context(&mut self, ctx: &str)
        ensures
            final(self).context() == ctx@,
            final(self).is_quiet() == old(self).is_quiet(),
            final(self).pending() == if old(self).is_quiet() {
                old(self).pending()
            } else {
                old(self).pending().push(HealthEventView::Section(ctx@))
            },
    {
        self.context = crate::text::owned(ctx);
        if self.is_silent {
            return ;
        }
        let ghost before = event_views(self.events@);
        self.events.push(HealthEvent::Section(crate::text::owned(ctx)));
        assert(event_views(self.events@) =~= before.push(HealthEventView::Section(ctx@)));
    }

    /// Files how the check `name` ended.
    pub fn report(&mut self, name: &str, state: ComponentState)
        ensures
            final(self).context() == old(self).context(),
            final(self).is_quiet() == old(self).is_quiet(),
            final(self).pending() == if old(self).is_quiet() {
                old(self).pending()
            } else {
                old(self).pending().push(HealthEventView::Checked(name@, state@))
            },
    {
        if self.is_silent {
            return ;
        }
        let ghost before = event_views(self.events@);
        self.events.push(HealthEvent::Checked(crate::text::owned(name), state));
        assert(event_views(self.events@) =~= before.push(HealthEventView::Checked(name@, state@)));
    }

    /// Begins the check `name`, to be ended through what is returned.
    pub fn start<'a>(&'a mut self, name: &str) -> (r: OngoingReport<'a>)
        ensures
            r.component@ == name@,
            *r.health == *old(self),
            *final(self) == *final(r.health),
    {
        OngoingReport { health: self, component: crate::text::owned(name) }
    }

    /// Hands out what was collected, oldest first, and forgets it.
    pub fn drain(&mut self) -> (r: Vec<HealthEvent>)
        ensures
            event_views(r@) == old(self).pending(),
            final(self).pending() == Seq::<HealthEventView>::empty(),
            final(self).context() == old(self).context(),
            final(self).is_quiet() == old(self).is_quiet(),
    {
        let mut out: Vec<HealthEvent> = Vec::new();
        std::mem::swap(&mut out, &mut self.events);
        assert(event_views(self.events@) =~= Seq::<HealthEventView>::empty());
        out
    }
}

/// The line that opens a section in print: the heading between dashes.
pub fn section_heading(ctx: &str) -> (r: String)
    ensures
        r@ == heading_line(heading_padding(ctx@.len()), ctx@),
{
    let len = ctx.unicode_len();
    let padding: usize = if len <= HEADING_WIDTH - 2 {
        (HEADING_WIDTH - (len + 2)) / 2
    } else {
        0
    };
    let mut side = String::new();
    let mut i: usize = 0;
    while i < padding
        invariant
            i <= padding,
            side@ == dashes(i as nat),
        decreases padding - i,
    {
        crate::text::push_char(&mut side, '-');
        assert(side@ =~= dashes((i + 1) as nat));
        i += 1;
    }
    let mut out = side.clone();
    crate::text::push_char(&mut out, ' ');
    out.append(ctx);
    crate::text::push_char(&mut out, ' ');
    out.append(side.as_str());
    assert(out@ =~= heading_line(heading_padding(ctx@.len()), ctx@));
    out
}

/// A check that has begun and must be ended.
#[must_use]
pub struct OngoingReport<'a> {
    pub health: &'a mut HealthReport,
    pub component: String,
}

/// What a report holds once `events` were filed: the same section, and the
/// events after those that were pending, unless the report drops everything.
pub open spec fn filing(before: HealthReport, after: HealthReport, events: Seq<HealthEventView>) -> bool {
    &&& after.context() == before.context()
    &&& after.is_quiet() == before.is_quiet()
    &&& after.pending() == if before.is_quiet() {
        before.pending()
    } else {
        before.pending() + events
    }
}

/// What a report holds once the check `name` was filed as ended in `state`.
pub open spec fn filed(
    before: HealthReport,
    after: HealthReport,
    name: Seq<char>,
    state: ComponentStateView,
) -> bool {
    &&& after.context() == before.context()
    &&& after.is_quiet() == before.is_quiet()
    &&& after.pending() == if before.is_quiet() {
        before.pending()
    } else {
        before.pending().push(HealthEventView::Checked(name, state))
    }
}

impl<'a> OngoingReport<'a> {
    pub fn complete(self, state: ComponentState)
        ensures
            filed(*old(self.health), *final(self.health), self.component@, state@),
    {
        self.health.report(self.component.as_str(), state);
    }

    pub fn ok(self)
        ensures
            filed(
                *old(self.health),
                *final(self.health),
                self.component@,
                ComponentStateView::Pass(None),
            ),
    {
        self.health.report(self.component.as_str(), ComponentState::Pass(None));
    }

    pub fn ok_with(self, txt: &str)
        ensures
            filed(
                *old(self.health),
                *final(self.health),
                self.component@,
                ComponentStateView::Pass(Some(txt@)),
            ),
    {
        self.health.report(
            self.component.as_str(),
            ComponentState::Pass(Some(crate::text::owned(txt))),
        );
    }

    pub fn info(self, txt: &str)
        ensures
            filed(
                *old(self.health),
                *final(self.health),
                self.component@,
                ComponentStateView::Info(txt@),
            ),
    {
        self.health.report(self.component.as_str(), ComponentState::Info(crate::text::owned(txt)));
    }

    pub fn warn(self, txt: &str)
        ensures
            filed(
                *old(self.health),
                *final(self.health),
                self.component@,
                ComponentStateView::Warning(txt@),
            ),
    {
        self.health.report(
            self.component.as_str(),
            ComponentState::Warning(crate::text::owned(txt)),
        );
    }

    pub fn error(self, txt: &str)
        ensures
            filed(
                *old(self.health),
                *final(self.health),
                self.component@,
                ComponentStateView::Error(txt@),
            ),
    {
        self.health.report(self.component.as_str(), ComponentState::Error(crate::text::owned(txt)));
    }
}

/// Values that say by themselves how a check ended.
pub trait ResultExt: Sized {
    /// How a check that gave this value ended.
    spec fn check_state(&self) -> ComponentStateView;

    /// Files the check `name` as ended the way this value says.
    fn report(self, report: &mut HealthReport, name: &str) -> (r: Self)
        ensures
            r == self,
            filed(*old(report), *final(report), name@, self.check_state()),
    {
        let check = report.start(name);
        self.finish_check(check)
    }

    /// Ends the check the way this value says.
    fn finish_check<'a>(self, check: OngoingReport<'a>) -> (r: Self)
        ensures
            r == self,
            filed(*old(check.health), *final(check.health), check.component@, self.check_state()),
    ;
}

impl<V> ResultExt for Result<V, UpstreamError> {
    /// A success passes; a failure is an error with its text.
    open spec fn check_state(&self) -> ComponentStateView {
        match self {
            Ok(_) => ComponentStateView::Pass(None),
            Err(e) => ComponentStateView::Error(error_text(e@)),
        }
    }

    fn finish_check<'a>(self, check: OngoingReport<'a>) -> (r: Self) {
        match &self {
            Ok(_) => check.ok(),
            Err(e) => {
                let text = e.message();
                check.error(text.as_str())
            },
        }
        self
    }
}

impl<T> ResultExt for Option<T> {
    /// A value passes; none is an error without text.
    open spec fn check_state(&self) -> ComponentStateView {
        match self {
            Some(_) => ComponentStateView::Pass(None),
            None => ComponentStateView::Error(Seq::<char>::empty()),
        }
    }

    fn finish_check<'a>(self, check: OngoingReport<'a>) -> (r: Self) {
        proof {
            reveal_strlit("");
            assert(""@ =~= Seq::<char>::empty());
        }
        match &self {
            Some(_) => check.ok(),
            None => check.error(""),
        }
        self
    }
}


} // verus!
