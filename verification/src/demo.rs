//! The business demo: a separate, memory-only exercise with one synthetic
//! company. A command either applies whole or leaves the state as it was.
use vstd::prelude::*;

use crate::amounts::{all_digits, amount_value, digits_value, lemma_digits_prefix, parse_amount_cents};
use crate::compose::hex_digit;
use crate::text::{
    ascii_digit, decimal, is_digit, views, chars_of, eq_ignore_ascii_case, has_no_control_but, no_control_but, owned, same_ignoring_ascii_case,
    split_by, split_pieces, string_of, string_views, trim, trimmed, utf8_len_exceeds, utf8_len_seq,
};

verus! {

/// The largest command body read, in bytes.
pub const MAX_BODY: usize = 32_768;

/// The largest serialized view a command may produce, in bytes.
pub const MAX_VIEW: usize = 1_048_576;

/// How many saves one epoch takes.
pub const MAX_REVISION: u32 = 10_000;

pub const SEED_NAME: &'static str = "North Star Operations";

pub const SEED_GOAL: &'static str = "Make weekly reporting easier to run";

/// The largest unit price a demo service takes, in cents.
pub const MAX_UNIT_PRICE_CENTS: u64 = 100_000_000;

#[derive(Clone, Copy, Debug, PartialEq, Eq, Structural)]
pub enum OriginKind {
    SeededSynthetic,
    UnverifiedExperimentInput,
}

#[derive(Clone, Copy, Debug, PartialEq, Eq, Structural)]
pub enum Currency {
    Sgd,
}

#[derive(Clone, Debug, PartialEq, Eq)]
pub struct Company {
    pub id: String,
    pub name: String,
    pub goal: String,
    pub origin: OriginKind,
}

#[derive(Clone, Debug, PartialEq, Eq)]
pub struct Service {
    pub id: String,
    pub company_id: String,
    pub name: String,
    pub scope: String,
    pub currency: Currency,
    pub unit_price_cents: u64,
    pub origin: OriginKind,
}

#[derive(Clone, Debug, PartialEq, Eq)]
pub struct Case {
    pub id: String,
    pub input_revision: u32,
    pub company: Company,
    pub service: Service,
}

#[derive(Clone, Debug, PartialEq, Eq)]
pub struct Summary {
    pub currency: Currency,
    pub next_step: String,
}

/// What a reader of the demo sees: a detached copy of the state.
#[derive(Clone, Debug, PartialEq, Eq)]
pub struct DemoView {
    pub epoch: String,
    pub revision: u32,
    pub demo_day: u16,
    pub case: Case,
    pub maturity: String,
    pub available_commands: Vec<String>,
    pub summary: Summary,
}

#[derive(Clone, Debug, PartialEq, Eq)]
pub struct CompanyInput {
    pub name: String,
    pub goal: String,
    pub service_name: String,
    pub service_scope: String,
    pub currency: String,
    pub unit_price: String,
}

#[derive(Clone, Debug, PartialEq, Eq)]
pub struct ResetInput {}

#[derive(Clone, Debug, PartialEq, Eq)]
pub enum Command {
    SaveCompany(CompanyInput),
    Reset(ResetInput),
}

/// A command against the state the sender last saw.
#[derive(Clone, Debug, PartialEq, Eq)]
pub struct CommandRequest {
    pub epoch: String,
    pub expected_revision: u32,
    pub command: Command,
}

#[derive(Clone, Debug, PartialEq, Eq)]
pub struct DemoState {
    pub epoch: String,
    pub revision: u32,
    pub demo_day: u16,
    pub case: Case,
}

#[derive(Clone, Copy, Debug, PartialEq, Eq, Structural)]
pub enum ErrorCode {
    InvalidInput,
    StaleEpoch,
    StaleRevision,
    LimitReached,
    UnsupportedCurrency,
    InternalError,
}

#[derive(Clone, Debug, PartialEq, Eq)]
pub struct DemoError {
    pub code: ErrorCode,
    pub field: Option<String>,
}

/// The error is `code`, about `field` when there is one.
pub open spec fn is_error(e: DemoError, code: ErrorCode, field: Option<Seq<char>>) -> bool {
    &&& e.code == code
    &&& match (e.field, field) {
        (None, None) => true,
        (Some(f), Some(g)) => f@ == g,
        _ => false,
    }
}

/// The HTTP status an error is answered with.
pub open spec fn status_of(code: ErrorCode) -> u16 {
    match code {
        ErrorCode::StaleEpoch | ErrorCode::StaleRevision | ErrorCode::LimitReached => 409,
        ErrorCode::InternalError => 500,
        ErrorCode::InvalidInput | ErrorCode::UnsupportedCurrency => 422,
    }
}

impl DemoError {
    pub fn new(code: ErrorCode) -> (e: DemoError)
        ensures
            is_error(e, code, None),
    {
        DemoError { code, field: None }
    }

    pub fn invalid(field: &str) -> (e: DemoError)
        ensures
            is_error(e, ErrorCode::InvalidInput, Some(field@)),
    {
        DemoError { code: ErrorCode::InvalidInput, field: Some(owned(field)) }
    }

    pub fn status(&self) -> (r: u16)
        ensures
            r == status_of(self.code),
    {
        match self.code {
            ErrorCode::StaleEpoch | ErrorCode::StaleRevision | ErrorCode::LimitReached => 409,
            ErrorCode::InternalError => 500,
            ErrorCode::InvalidInput | ErrorCode::UnsupportedCurrency => 422,
        }
    }
}

/// The state the demo starts from, and returns to on reset, in `epoch`.
pub open spec fn is_seeded(s: DemoState, epoch: Seq<char>) -> bool {
    &&& s.epoch@ == epoch
    &&& s.revision == 0
    &&& s.demo_day == 0
    &&& s.case.id@ == "case-1"@
    &&& s.case.input_revision == 0
    &&& s.case.company.id@ == "company-1"@
    &&& s.case.company.name@ == SEED_NAME@
    &&& s.case.company.goal@ == SEED_GOAL@
    &&& s.case.company.origin == OriginKind::SeededSynthetic
    &&& s.case.service.id@ == "service-1"@
    &&& s.case.service.company_id@ == "company-1"@
    &&& s.case.service.name@ == "Reporting clarity sprint"@
    &&& s.case.service.scope@ == "Assess weekly reporting and produce an improvement plan"@
    &&& s.case.service.currency == Currency::Sgd
    &&& s.case.service.unit_price_cents == 250_000
    &&& s.case.service.origin == OriginKind::SeededSynthetic
}

/// The view shows the state as it is.
pub open spec fn is_view_of(v: DemoView, s: DemoState) -> bool {
    &&& v.epoch == s.epoch
    &&& v.revision == s.revision
    &&& v.demo_day == s.demo_day
    &&& v.case == s.case
    &&& v.maturity@ == "synthetic_experiment"@
    &&& string_views(v.available_commands@) == seq!["save_company"@, "reset"@]
    &&& v.summary.currency == Currency::Sgd
    &&& v.summary.next_step@ == "Enter the practice customer and discovery in the next increment"@
}

fn copy_text(s: &String) -> (r: String)
    ensures
        r == *s,
{
    s.clone()
}

fn copy_case(c: &Case) -> (r: Case)
    ensures
        r == *c,
{
    Case {
        id: copy_text(&c.id),
        input_revision: c.input_revision,
        company: Company {
            id: copy_text(&c.company.id),
            name: copy_text(&c.company.name),
            goal: copy_text(&c.company.goal),
            origin: c.company.origin,
        },
        service: Service {
            id: copy_text(&c.service.id),
            company_id: copy_text(&c.service.company_id),
            name: copy_text(&c.service.name),
            scope: copy_text(&c.service.scope),
            currency: c.service.currency,
            unit_price_cents: c.service.unit_price_cents,
            origin: c.service.origin,
        },
    }
}

fn copy_input(i: &CompanyInput) -> (r: CompanyInput)
    ensures
        r == *i,
{
    CompanyInput {
        name: copy_text(&i.name),
        goal: copy_text(&i.goal),
        service_name: copy_text(&i.service_name),
        service_scope: copy_text(&i.service_scope),
        currency: copy_text(&i.currency),
        unit_price: copy_text(&i.unit_price),
    }
}

fn copy_state(s: &DemoState) -> (r: DemoState)
    ensures
        r == *s,
{
    DemoState {
        epoch: copy_text(&s.epoch),
        revision: s.revision,
        demo_day: s.demo_day,
        case: copy_case(&s.case),
    }
}

impl DemoState {
    pub fn seeded(epoch: String) -> (s: DemoState)
        ensures
            is_seeded(s, epoch@),
    {
        DemoState {
            epoch,
            revision: 0,
            demo_day: 0,
            case: Case {
                id: owned("case-1"),
                input_revision: 0,
                company: Company {
                    id: owned("company-1"),
                    name: owned(SEED_NAME),
                    goal: owned(SEED_GOAL),
                    origin: OriginKind::SeededSynthetic,
                },
                service: Service {
                    id: owned("service-1"),
                    company_id: owned("company-1"),
                    name: owned("Reporting clarity sprint"),
                    scope: owned("Assess weekly reporting and produce an improvement plan"),
                    currency: Currency::Sgd,
                    unit_price_cents: 250_000,
                    origin: OriginKind::SeededSynthetic,
                },
            },
        }
    }

    /// A detached copy for a reader; reading changes nothing.
    pub fn view(&self) -> (v: DemoView)
        ensures
            is_view_of(v, *self),
    {
        let mut commands: Vec<String> = Vec::new();
        commands.push(owned("save_company"));
        commands.push(owned("reset"));
        assert(string_views(commands@) =~= seq!["save_company"@, "reset"@]);
        DemoView {
            epoch: copy_text(&self.epoch),
            revision: self.revision,
            demo_day: self.demo_day,
            case: copy_case(&self.case),
            maturity: owned("synthetic_experiment"),
            available_commands: commands,
            summary: Summary {
                currency: Currency::Sgd,
                next_step: owned("Enter the practice customer and discovery in the next increment"),
            },
        }
    }
}

/// A demo text field: trimmed, non-empty, at most `max` bytes, no control
/// character (but a line break where `multiline`).
pub open spec fn clean_spec(value: Seq<char>, max: nat, multiline: bool) -> Option<Seq<char>> {
    let t = trimmed(value);
    if t.len() == 0 || utf8_len_seq(t) > max || !no_control_but(value, multiline, false) {
        None
    } else {
        Some(t)
    }
}

pub fn clean(field: &str, value: &str, max: usize, multiline: bool) -> (r: Result<String, DemoError>)
    ensures
        match clean_spec(value@, max as nat, multiline) {
            Some(t) => r matches Ok(s) && s@ == t,
            None => r matches Err(e) && is_error(e, ErrorCode::InvalidInput, Some(field@)),
        },
{
    let v = chars_of(value);
    let t = trim(&v);
    if t.len() == 0 || utf8_len_exceeds(&t, max) || !has_no_control_but(&v, multiline, false) {
        return Err(DemoError::invalid(field));
    }
    Ok(string_of(&t))
}

/// Why a company save is refused, if it is, in the order the fields are
/// checked: the four texts, the currency, the unit price, the input limit.
pub open spec fn save_fault(input_revision: u32, input: CompanyInput) -> Option<(ErrorCode, Option<Seq<char>>)> {
    let price = amount_value(input.unit_price@);
    if clean_spec(input.name@, 120, false) is None {
        Some((ErrorCode::InvalidInput, Some("name"@)))
    } else if clean_spec(input.goal@, 2000, true) is None {
        Some((ErrorCode::InvalidInput, Some("goal"@)))
    } else if clean_spec(input.service_name@, 120, false) is None {
        Some((ErrorCode::InvalidInput, Some("service_name"@)))
    } else if clean_spec(input.service_scope@, 2000, true) is None {
        Some((ErrorCode::InvalidInput, Some("service_scope"@)))
    } else if input.currency@ != "SGD"@ {
        Some((ErrorCode::UnsupportedCurrency, Some("currency"@)))
    } else if !(price matches Some(c) && 0 < c <= MAX_UNIT_PRICE_CENTS) {
        Some((ErrorCode::InvalidInput, Some("unit_price"@)))
    } else if input_revision >= MAX_REVISION {
        Some((ErrorCode::LimitReached, None))
    } else {
        None
    }
}

/// `after` is `before` with the company and service the input describes,
/// marked as unverified input, and one more input revision.
pub open spec fn saved(before: DemoState, after: DemoState, input: CompanyInput) -> bool {
    &&& after.epoch == before.epoch
    &&& after.demo_day == before.demo_day
    &&& after.case.id == before.case.id
    &&& after.case.input_revision == before.case.input_revision + 1
    &&& after.case.company.id == before.case.company.id
    &&& Some(after.case.company.name@) == clean_spec(input.name@, 120, false)
    &&& Some(after.case.company.goal@) == clean_spec(input.goal@, 2000, true)
    &&& after.case.company.origin == OriginKind::UnverifiedExperimentInput
    &&& after.case.service.id == before.case.service.id
    &&& after.case.service.company_id == before.case.service.company_id
    &&& Some(after.case.service.name@) == clean_spec(input.service_name@, 120, false)
    &&& Some(after.case.service.scope@) == clean_spec(input.service_scope@, 2000, true)
    &&& after.case.service.currency == Currency::Sgd
    &&& Some(after.case.service.unit_price_cents as nat) == amount_value(input.unit_price@)
    &&& after.case.service.origin == OriginKind::UnverifiedExperimentInput
}

/// Saves the company and its service, or changes nothing.
pub fn save_company(state: &mut DemoState, input: CompanyInput) -> (r: Result<(), DemoError>)
    ensures
        match save_fault(old(state).case.input_revision, input) {
            Some((code, field)) => r matches Err(e) && is_error(e, code, field) && *final(state)
                == *old(state),
            None => r is Ok && saved(*old(state), *final(state), input) && final(state).revision
                == old(state).revision,
        },
{
    let name = match clean("name", input.name.as_str(), 120, false) {
        Ok(s) => s,
        Err(e) => {
            return Err(e);
        },
    };
    let goal = match clean("goal", input.goal.as_str(), 2000, true) {
        Ok(s) => s,
        Err(e) => {
            return Err(e);
        },
    };
    let service_name = match clean("service_name", input.service_name.as_str(), 120, false) {
        Ok(s) => s,
        Err(e) => {
            return Err(e);
        },
    };
    let scope = match clean("service_scope", input.service_scope.as_str(), 2000, true) {
        Ok(s) => s,
        Err(e) => {
            return Err(e);
        },
    };
    if !(input.currency == owned("SGD")) {
        return Err(DemoError { code: ErrorCode::UnsupportedCurrency, field: Some(owned("currency")) });
    }
    let cents = match parse_amount_cents(input.unit_price.as_str()) {
        Ok(c) => c,
        Err(_) => {
            return Err(DemoError::invalid("unit_price"));
        },
    };
    if cents == 0 || cents > MAX_UNIT_PRICE_CENTS {
        return Err(DemoError::invalid("unit_price"));
    }
    if state.case.input_revision >= MAX_REVISION {
        return Err(DemoError::new(ErrorCode::LimitReached));
    }
    let next = state.case.input_revision + 1;
    state.case.company.name = name;
    state.case.company.goal = goal;
    state.case.company.origin = OriginKind::UnverifiedExperimentInput;
    state.case.service.name = service_name;
    state.case.service.scope = scope;
    state.case.service.currency = Currency::Sgd;
    state.case.service.unit_price_cents = cents;
    state.case.service.origin = OriginKind::UnverifiedExperimentInput;
    state.case.input_revision = next;
    Ok(())
}


/// The index of the first of (at most) four drawn epochs that differs from
/// `epoch`, looking from `k` on.
pub open spec fn fresh_from(draws: Seq<Seq<char>>, epoch: Seq<char>, k: int) -> Option<int>
    decreases 4 - k,
{
    if k < 0 || k >= 4 || k >= draws.len() {
        None
    } else if draws[k] != epoch {
        Some(k)
    } else {
        fresh_from(draws, epoch, k + 1)
    }
}

/// Why a command is refused before its result is measured, if it is: a
/// stale epoch, a stale revision, the save limit, a refused save, or no
/// fresh epoch among the draws for a reset.
pub open spec fn step_error(s: DemoState, req: CommandRequest, draws: Seq<Seq<char>>) -> Option<
    (ErrorCode, Option<Seq<char>>),
> {
    if req.epoch@ != s.epoch@ {
        Some((ErrorCode::StaleEpoch, None))
    } else if req.expected_revision != s.revision {
        Some((ErrorCode::StaleRevision, None))
    } else {
        match req.command {
            Command::SaveCompany(input) => if s.revision >= MAX_REVISION {
                Some((ErrorCode::LimitReached, None))
            } else {
                save_fault(s.case.input_revision, input)
            },
            Command::Reset(_) => if fresh_from(draws, s.epoch@, 0) is None {
                Some((ErrorCode::InternalError, None))
            } else {
                None
            },
        }
    }
}

/// `after` is what an accepted command makes of `before`: the saved
/// company with the next revision, or the seeded state in a fresh epoch.
pub open spec fn stepped(before: DemoState, req: CommandRequest, draws: Seq<Seq<char>>, after: DemoState) -> bool {
    match req.command {
        Command::SaveCompany(input) => after.revision == before.revision + 1 && saved(before, after, input),
        Command::Reset(_) => match fresh_from(draws, before.epoch@, 0) {
            Some(k) => is_seeded(after, draws[k]),
            None => false,
        },
    }
}

proof fn lemma_fresh(draws: Seq<Seq<char>>, epoch: Seq<char>, k: int)
    requires
        0 <= k,
    ensures
        fresh_from(draws, epoch, k) matches Some(i) ==> k <= i < 4 && i < draws.len() && draws[i] != epoch,
    decreases 4 - k,
{
    if k < 4 && k < draws.len() && draws[k] == epoch {
        lemma_fresh(draws, epoch, k + 1);
    }
}

/// The draw a reset takes differs from the epoch it leaves.
pub proof fn lemma_fresh_law(draws: Seq<Seq<char>>, epoch: Seq<char>)
    ensures
        fresh_from(draws, epoch, 0) matches Some(i) ==> 0 <= i < draws.len() && draws[i] != epoch,
{
    lemma_fresh(draws, epoch, 0);
}

impl DemoState {
    /// What the command would make of the state; the state itself is not
    /// touched.
    pub fn candidate(&self, request: &CommandRequest, draws: &Vec<String>) -> (r: Result<DemoState, DemoError>)
        ensures
            match step_error(*self, *request, string_views(draws@)) {
                Some((code, field)) => r matches Err(e) && is_error(e, code, field),
                None => r matches Ok(c) && stepped(*self, *request, string_views(draws@), c),
            },
    {
        if !(request.epoch == self.epoch) {
            return Err(DemoError::new(ErrorCode::StaleEpoch));
        }
        if request.expected_revision != self.revision {
            return Err(DemoError::new(ErrorCode::StaleRevision));
        }
        match &request.command {
            Command::SaveCompany(input) => {
                if self.revision >= MAX_REVISION {
                    return Err(DemoError::new(ErrorCode::LimitReached));
                }
                let mut c = copy_state(self);
                let saved = save_company(&mut c, copy_input(input));
                match saved {
                    Ok(()) => {
                        c.revision = c.revision + 1;
                        Ok(c)
                    },
                    Err(e) => Err(e),
                }
            },
            Command::Reset(_) => {
                let ghost ds = string_views(draws@);
                let mut k: usize = 0;
                while k < 4 && k < draws.len()
                    invariant
                        k <= 4,
                        ds == string_views(draws@),
                        request.epoch@ == self.epoch@,
                        request.expected_revision == self.revision,
                        request.command is Reset,
                        fresh_from(ds, self.epoch@, 0) == fresh_from(ds, self.epoch@, k as int),
                    decreases 4 - k,
                {
                    if !(draws[k] == self.epoch) {
                        assert(ds[k as int] != self.epoch@);
                        assert(fresh_from(ds, self.epoch@, k as int) == Some(k as int));
                        return Ok(DemoState::seeded(draws[k].clone()));
                    }
                    k += 1;
                }
                Err(DemoError::new(ErrorCode::InternalError))
            },
        }
    }

    /// Applies a command whole or not at all: the state changes only when
    /// the command is accepted and its view, as `view_bytes` measures it,
    /// fits in `max_view` bytes. `draws` are the candidate epochs a reset
    /// may take, tried in order, at most four.
    pub fn apply_bounded<F: Fn(&DemoView) -> usize>(
        &mut self,
        request: CommandRequest,
        draws: &Vec<String>,
        view_bytes: F,
        max_view: usize,
    ) -> (r: Result<DemoView, DemoError>)
        requires
            forall|v: &DemoView| view_bytes.requires((v,)),
        ensures
            r is Err ==> *final(self) == *old(self),
            match step_error(*old(self), request, string_views(draws@)) {
                Some((code, field)) => r matches Err(e) && is_error(e, code, field),
                None => match r {
                    Ok(v) => {
                        &&& stepped(*old(self), request, string_views(draws@), *final(self))
                        &&& is_view_of(v, *final(self))
                        &&& exists|n: usize| n <= max_view && view_bytes.ensures((&v,), n)
                    },
                    Err(e) => {
                        &&& is_error(e, ErrorCode::LimitReached, None)
                        &&& exists|c: DemoState, v: DemoView, n: usize|
                            stepped(*old(self), request, string_views(draws@), c) && is_view_of(v, c)
                                && view_bytes.ensures((&v,), n) && n > max_view
                    },
                },
            },
    {
        let candidate = match self.candidate(&request, draws) {
            Ok(c) => c,
            Err(e) => {
                return Err(e);
            },
        };
        let view = candidate.view();
        let n = view_bytes(&view);
        if n > max_view {
            return Err(DemoError::new(ErrorCode::LimitReached));
        }
        *self = candidate;
        Ok(view)
    }
}

/// Text a fresh epoch can be: the hexadecimal digits of sixteen bytes.
pub open spec fn is_epoch_text(t: Seq<char>) -> bool {
    exists|b: Seq<u8>| b.len() == 16 && t == hex_bytes(b)
}

/// What applying `request` with these candidate epochs and this view bound
/// gives: the refusal its step names; else the accepted state and its view
/// when the view, as `view_bytes` measures it, fits; else `LimitReached`
/// with the state as it was.
pub open spec fn outcome<F: Fn(&DemoView) -> usize>(
    before: DemoState,
    request: CommandRequest,
    draws: Seq<Seq<char>>,
    view_bytes: F,
    max_view: usize,
    after: DemoState,
    r: Result<DemoView, DemoError>,
) -> bool {
    match step_error(before, request, draws) {
        Some((code, field)) => r matches Err(e) && is_error(e, code, field) && after == before,
        None => match r {
            Ok(v) => {
                &&& stepped(before, request, draws, after)
                &&& is_view_of(v, after)
                &&& exists|n: usize| n <= max_view && view_bytes.ensures((&v,), n)
            },
            Err(e) => {
                &&& is_error(e, ErrorCode::LimitReached, None)
                &&& after == before
                &&& exists|c: DemoState, v: DemoView, n: usize|
                    stepped(before, request, draws, c) && is_view_of(v, c) && view_bytes.ensures((&v,), n)
                        && n > max_view
            },
        },
    }
}

impl DemoState {
    /// Applies a command with four fresh epochs for a reset and the view
    /// bound of `MAX_VIEW` bytes: the whole command or nothing.
    pub fn apply<F: Fn(&DemoView) -> usize>(&mut self, request: CommandRequest, view_bytes: F) -> (r: Result<
        DemoView,
        DemoError,
    >)
        requires
            forall|v: &DemoView| view_bytes.requires((v,)),
        ensures
            r is Err ==> *final(self) == *old(self),
            r matches Ok(v) ==> is_view_of(v, *final(self)),
            exists|draws: Seq<Seq<char>>|
                draws.len() == 4 && (forall|i: int| 0 <= i < 4 ==> #[trigger] is_epoch_text(draws[i])) && outcome(
                    *old(self),
                    request,
                    draws,
                    view_bytes,
                    MAX_VIEW,
                    *final(self),
                    r,
                ),
    {
        let mut draws: Vec<String> = Vec::new();
        let mut i: usize = 0;
        while i < 4
            invariant
                i <= 4,
                draws@.len() == i,
                forall|j: int| 0 <= j < i ==> #[trigger] is_epoch_text(string_views(draws@)[j]),
            decreases 4 - i,
        {
            let e = new_epoch();
            let ghost before = draws@;
            draws.push(e);
            assert(string_views(draws@) =~= string_views(before).push(e@));
            i += 1;
        }
        let r = self.apply_bounded(request, &draws, view_bytes, MAX_VIEW);
        assert(string_views(draws@).len() == 4);
        r
    }
}

/// The lower-case hexadecimal text of the bytes, two digits each.
pub open spec fn hex_bytes(b: Seq<u8>) -> Seq<char>
    decreases b.len(),
{
    if b.len() == 0 {
        Seq::empty()
    } else {
        hex_bytes(b.drop_last()) + seq![hex_digit((b.last() / 16) as int), hex_digit((b.last() % 16) as int)]
    }
}

/// `rand::random`: sixteen bytes from the thread's generator. Nothing is
/// stated of them.
#[verifier::external_body]
fn random_bytes() -> (r: [u8; 16]) {
    rand::random::<[u8; 16]>()
}

/// `hex::encode`: two lower-case hexadecimal digits per byte, in order.
#[verifier::external_body]
fn hex_encode(bytes: &[u8; 16]) -> (r: String)
    ensures
        r@ == hex_bytes(bytes@),
{
    hex::encode(bytes)
}

/// A fresh epoch: 32 hexadecimal digits of sixteen random bytes.
pub fn new_epoch() -> (r: String)
    ensures
        exists|b: Seq<u8>| b.len() == 16 && r@ == hex_bytes(b),
{
    let b = random_bytes();
    hex_encode(&b)
}

/// Sixteen-byte hexadecimal text is 32 characters long.
pub proof fn lemma_hex_len(b: Seq<u8>)
    ensures
        hex_bytes(b).len() == 2 * b.len(),
    decreases b.len(),
{
    if b.len() > 0 {
        lemma_hex_len(b.drop_last());
    }
}

/// Whether a `Content-Type` value is JSON in UTF-8: `application/json`,
/// optionally followed by `; charset=utf-8`, each part trimmed and compared
/// without regard to ASCII case.
pub open spec fn media_ok(value: Seq<char>) -> bool {
    let parts = split_by(value, |c: char| c == ';');
    (parts.len() == 1 && eq_ignore_ascii_case(trimmed(parts[0]), "application/json"@)) || (parts.len()
        == 2 && eq_ignore_ascii_case(trimmed(parts[0]), "application/json"@) && eq_ignore_ascii_case(
        trimmed(parts[1]),
        "charset=utf-8"@,
    ))
}

fn semicolon(c: char) -> (r: bool)
    ensures
        r == (c == ';'),
{
    c == ';'
}

pub fn media_allowed(value: &str) -> (r: bool)
    ensures
        r == media_ok(value@),
{
    let v = chars_of(value);
    let parts = split_pieces(&v, semicolon, Ghost(|c: char| c == ';'));
    let json = chars_of("application/json");
    let utf8 = chars_of("charset=utf-8");
    if parts.len() == 1 {
        same_ignoring_ascii_case(&trim(&parts[0]), &json)
    } else if parts.len() == 2 {
        same_ignoring_ascii_case(&trim(&parts[0]), &json) && same_ignoring_ascii_case(&trim(&parts[1]), &utf8)
    } else {
        false
    }
}


// ---------------------------------------------------------------------------
// Requests
// ---------------------------------------------------------------------------

/// The request methods the demo tells apart.
#[derive(Clone, Copy, Debug, PartialEq, Eq, Structural)]
pub enum Method {
    Get,
    Post,
    Other,
}

/// What the demo reads of a request before its body: the method, the
/// path, and the values of the headers it checks (each header's values in
/// order, empty when absent).
pub struct RequestMeta {
    pub method: Method,
    pub url: String,
    pub hosts: Vec<String>,
    pub origins: Vec<String>,
    pub content_lengths: Vec<String>,
    pub transfer_encodings: Vec<String>,
    pub expects: Vec<String>,
    pub connections: Vec<String>,
    pub founder_demo: Vec<String>,
    pub content_types: Vec<String>,
    pub body_length: Option<usize>,
}

/// What to do with a request, decided from its metadata alone.
#[derive(Clone, Copy, Debug, PartialEq, Eq)]
pub enum Route {
    /// Answer with this status and error code.
    Refuse { status: u16, code: &'static str },
    /// 405 `method_not_allowed`, naming the method the path takes.
    WrongMethod { allow: Method },
    /// Serve the page.
    Index,
    /// Serve the script.
    Script,
    /// Serve the current view.
    View,
    /// Read a command body of this many bytes.
    Command { length: usize },
}

pub open spec fn digit_run(s: Seq<char>) -> bool {
    s.len() > 0 && all_digits(s)
}

/// `str::parse::<usize>` accepts the text: an optional `+`, then digits,
/// of a value that fits.
pub open spec fn usize_text(s: Seq<char>) -> bool {
    let d = if s.len() > 0 && s[0] == '+' {
        s.skip(1)
    } else {
        s
    };
    digit_run(d) && digits_value(d) <= usize::MAX
}

pub fn parses_as_usize(text: &str) -> (r: bool)
    ensures
        r == usize_text(text@),
{
    let v = chars_of(text);
    let start: usize = if v.len() > 0 && v[0] == '+' {
        1
    } else {
        0
    };
    let ghost d = if v@.len() > 0 && v@[0] == '+' {
        v@.skip(1)
    } else {
        v@
    };
    assert(d =~= v@.skip(start as int));
    if v.len() == start {
        return false;
    }
    let mut value: usize = 0;
    let mut i: usize = start;
    while i < v.len()
        invariant
            start <= i <= v@.len(),
            v@ == text@,
            d == (if text@.len() > 0 && text@[0] == '+' {
                text@.skip(1)
            } else {
                text@
            }),
            d =~= v@.skip(start as int),
            value == digits_value(d.take(i - start)),
            all_digits(d.take(i - start)),
        decreases v@.len() - i,
    {
        let ghost j = i - start;
        assert(d.take(j + 1).drop_last() =~= d.take(j));
        let c = v[i];
        if !ascii_digit(c) {
            assert(!is_digit(d[j]));
            return false;
        }
        assert(all_digits(d.take(j + 1))) by {
            assert forall|x: int| 0 <= x < j + 1 implies is_digit(#[trigger] d.take(j + 1)[x]) by {
                if x < j {
                    assert(d.take(j + 1)[x] == d.take(j)[x]);
                }
            }
        }
        let dv = (c as u32 - 48) as usize;
        if value > (usize::MAX - dv) / 10 {
            proof {
                if all_digits(d) {
                    lemma_digits_prefix(d, j + 1);
                }
            }
            return false;
        }
        value = value * 10 + dv;
        i += 1;
    }
    assert(d.take(d.len() as int) =~= d);
    true
}

/// A `Connection` value asks for an upgrade.
pub open spec fn asks_upgrade(value: Seq<char>) -> bool {
    let parts = split_by(value, |c: char| c == ',');
    exists|i: int| 0 <= i < parts.len() && eq_ignore_ascii_case(trimmed(#[trigger] parts[i]), "upgrade"@)
}

fn comma(c: char) -> (r: bool)
    ensures
        r == (c == ','),
{
    c == ','
}

fn upgrade_requested(value: &str) -> (r: bool)
    ensures
        r == asks_upgrade(value@),
{
    let v = chars_of(value);
    let parts = split_pieces(&v, comma, Ghost(|c: char| c == ','));
    let up = chars_of("upgrade");
    let mut i: usize = 0;
    while i < parts.len()
        invariant
            i <= parts@.len(),
            v@ == value@,
            up@ == "upgrade"@,
            views(parts@) == split_by(v@, |c: char| c == ','),
            forall|k: int| 0 <= k < i ==> !eq_ignore_ascii_case(trimmed(#[trigger] views(parts@)[k]), "upgrade"@),
        decreases parts@.len() - i,
    {
        let t = trim(&parts[i]);
        if same_ignoring_ascii_case(&t, &up) {
            assert(eq_ignore_ascii_case(trimmed(views(parts@)[i as int]), "upgrade"@));
            assert(asks_upgrade(value@));
            return true;
        }
        i += 1;
    }
    false
}

/// The host the demo answers to, and the origin its page has.
pub open spec fn host_of(port: u16) -> Seq<char> {
    "127.0.0.1:"@ + decimal(port as nat)
}

/// The method a path takes, or none for a path the demo does not serve.
pub open spec fn path_method(url: Seq<char>) -> Option<Method> {
    if url == "/"@ || url == "/app.js"@ || url == "/api/demo"@ {
        Some(Method::Get)
    } else if url == "/api/demo/command"@ {
        Some(Method::Post)
    } else {
        None
    }
}

pub open spec fn refuse(status: u16, code: Seq<char>, r: Route) -> bool {
    r matches Route::Refuse { status: s, code: c } && s == status && c@ == code
}

/// The route for a request: the origin checks, the path, the method, the
/// framing checks, then for a read the page, script, or view, and for a
/// command the demo's own header, the media type, and the length.
pub open spec fn routed(m: RequestMeta, port: u16, r: Route) -> bool {
    let host = host_of(port);
    let origins = string_views(m.origins@);
    let lengths = string_views(m.content_lengths@);
    if string_views(m.hosts@) != seq![host] || origins.len() > 1 || (origins.len() == 1 && origins[0]
        != "http://"@ + host) || (m.method == Method::Post && origins.len() == 0) {
        refuse(403, "forbidden_origin"@, r)
    } else {
        match path_method(m.url@) {
            None => refuse(404, "not_found"@, r),
            Some(allowed) => if m.method != allowed {
                r == Route::WrongMethod { allow: allowed }
            } else if lengths.len() > 1 || (lengths.len() == 1 && !usize_text(lengths[0]))
                || m.transfer_encodings@.len() > 0 || m.expects@.len() > 0 || (exists|i: int|
                0 <= i < m.connections@.len() && asks_upgrade(#[trigger] m.connections@[i]@)) {
                refuse(400, "invalid_request"@, r)
            } else if allowed == Method::Get {
                if m.body_length matches Some(n) && n > 0 {
                    refuse(400, "invalid_request"@, r)
                } else if m.url@ == "/"@ {
                    r == Route::Index
                } else if m.url@ == "/app.js"@ {
                    r == Route::Script
                } else {
                    r == Route::View
                }
            } else if string_views(m.founder_demo@) != seq!["1"@] {
                refuse(403, "forbidden_origin"@, r)
            } else if m.content_types@.len() != 1 || !media_ok(m.content_types@[0]@) {
                refuse(415, "unsupported_media_type"@, r)
            } else {
                match m.body_length {
                    None => refuse(411, "length_required"@, r),
                    Some(n) => if n > MAX_BODY {
                        refuse(413, "payload_too_large"@, r)
                    } else {
                        r == Route::Command { length: n }
                    },
                }
            },
        }
    }
}

fn same_text(a: &String, b: &str) -> (r: bool)
    ensures
        r == (a@ == b@),
{
    *a == owned(b)
}

fn only(values: &Vec<String>, want: &String) -> (r: bool)
    ensures
        r == (string_views(values@) == seq![want@]),
{
    if values.len() != 1 {
        assert(string_views(values@).len() != 1);
        return false;
    }
    let r = values[0] == *want;
    assert(string_views(values@)[0] == values@[0]@);
    assert(r ==> string_views(values@) =~= seq![want@]);
    assert(string_views(values@) == seq![want@] ==> values@[0]@ == want@);
    r
}

fn any_upgrade(values: &Vec<String>) -> (r: bool)
    ensures
        r == exists|i: int| 0 <= i < values@.len() && asks_upgrade(#[trigger] values@[i]@),
{
    let mut i: usize = 0;
    while i < values.len()
        invariant
            i <= values@.len(),
            forall|k: int| 0 <= k < i ==> !asks_upgrade(#[trigger] values@[k]@),
        decreases values@.len() - i,
    {
        if upgrade_requested(values[i].as_str()) {
            return true;
        }
        i += 1;
    }
    false
}

/// Decides what to do with a request from its metadata.
pub fn route(m: &RequestMeta, port: u16) -> (r: Route)
    ensures
        routed(*m, port, r),
{
    let mut hv: Vec<char> = Vec::new();
    crate::text::push_all(&mut hv, "127.0.0.1:");
    crate::text::push_decimal(&mut hv, port as u64);
    let host = string_of(&hv);
    let mut origin = owned("http://");
    crate::text::push_str(&mut origin, host.as_str());
    let one_host = only(&m.hosts, &host);
    let bad_origin = m.origins.len() > 1 || (m.origins.len() == 1 && !(m.origins[0] == origin));
    assert(m.origins.len() == 1 ==> string_views(m.origins@)[0] == m.origins@[0]@);
    if !one_host || bad_origin || (m.method == Method::Post && m.origins.len() == 0) {
        return Route::Refuse { status: 403, code: "forbidden_origin" };
    }
    let allowed = if same_text(&m.url, "/") || same_text(&m.url, "/app.js") || same_text(&m.url, "/api/demo") {
        Method::Get
    } else if same_text(&m.url, "/api/demo/command") {
        Method::Post
    } else {
        return Route::Refuse { status: 404, code: "not_found" };
    };
    if m.method != allowed {
        return Route::WrongMethod { allow: allowed };
    }
    let lengths_bad = m.content_lengths.len() > 1 || (m.content_lengths.len() == 1 && !parses_as_usize(
        m.content_lengths[0].as_str(),
    ));
    assert(m.content_lengths.len() == 1 ==> string_views(m.content_lengths@)[0] == m.content_lengths@[0]@);
    if lengths_bad || m.transfer_encodings.len() > 0 || m.expects.len() > 0 || any_upgrade(&m.connections) {
        return Route::Refuse { status: 400, code: "invalid_request" };
    }
    if allowed == Method::Get {
        let has_body = match m.body_length {
            Some(n) => n > 0,
            None => false,
        };
        if has_body {
            return Route::Refuse { status: 400, code: "invalid_request" };
        }
        return if same_text(&m.url, "/") {
            Route::Index
        } else if same_text(&m.url, "/app.js") {
            Route::Script
        } else {
            Route::View
        };
    }
    if !only(&m.founder_demo, &owned("1")) {
        return Route::Refuse { status: 403, code: "forbidden_origin" };
    }
    if m.content_types.len() != 1 || !media_allowed(m.content_types[0].as_str()) {
        return Route::Refuse { status: 415, code: "unsupported_media_type" };
    }
    match m.body_length {
        None => Route::Refuse { status: 411, code: "length_required" },
        Some(n) => if n > MAX_BODY {
            Route::Refuse { status: 413, code: "payload_too_large" }
        } else {
            Route::Command { length: n }
        },
    }
}

/// Whether a read command body is refused: a read error, a body past the
/// cap, or a body of another length than announced; as (status, code).
pub open spec fn body_refusal(read_ok: bool, body_len: nat, length: nat) -> Option<(u16, Seq<char>)> {
    if !read_ok {
        Some((400, "invalid_request"@))
    } else if body_len > MAX_BODY {
        Some((413, "payload_too_large"@))
    } else if body_len != length {
        Some((400, "invalid_request"@))
    } else {
        None
    }
}

pub fn check_body(read_ok: bool, body_len: usize, length: usize) -> (r: Option<(u16, &'static str)>)
    ensures
        match body_refusal(read_ok, body_len as nat, length as nat) {
            Some((s, c)) => r matches Some((s2, c2)) && s2 == s && c2@ == c,
            None => r is None,
        },
{
    if !read_ok {
        Some((400, "invalid_request"))
    } else if body_len > MAX_BODY {
        Some((413, "payload_too_large"))
    } else if body_len != length {
        Some((400, "invalid_request"))
    } else {
        None
    }
}

} // verus!
