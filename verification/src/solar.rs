use vstd::prelude::*;

use crate::template::ReplyField;

verus! {

/// One reading shown by the widget: a value, nothing yet, or a failure to
/// obtain one.
pub enum Availability<T> {
    Available(T),
    Unavailable,
    Failed,
}

impl<T> Availability<T> {
    /// The reading after a failure: a value it already has stays, anything
    /// else becomes `Failed`.
    pub open spec fn failed(self) -> Availability<T> {
        match self {
            Availability::Available(v) => Availability::Available(v),
            _ => Availability::Failed,
        }
    }

    /// The value to display, if there is one.
    pub open spec fn value(self) -> Option<T> {
        match self {
            Availability::Available(v) => Some(v),
            _ => None,
        }
    }

    pub fn is_available(&self) -> (available: bool)
        ensures
            available == (*self is Available),
    {
        match self {
            Availability::Available(_) => true,
            _ => false,
        }
    }

    /// Marks the reading failed without touching a value it already has.
    pub fn mark_failed(&mut self)
        ensures
            *final(self) == old(self).failed(),
    {
        if !self.is_available() {
            *self = Availability::Failed;
        }
    }

    /// The value to display; `None` when the widget shows its placeholder.
    pub fn reading(&self) -> (shown: Option<&T>)
        ensures
            shown matches Some(v) ==> self.value() == Some(*v),
            shown is None <==> self.value() is None,
    {
        match self {
            Availability::Available(v) => Some(v),
            _ => None,
        }
    }
}

impl<T> Default for Availability<T> {
    fn default() -> (blank: Availability<T>)
        ensures
            blank is Unavailable,
    {
        Availability::Unavailable
    }
}

/// `field` after a reply brought `new` for it: a fresh value replaces what
/// was there; a missing or unparsable one marks the field failed.
pub open spec fn merged<T>(field: Availability<T>, new: Availability<T>) -> Availability<T> {
    match new {
        Availability::Available(v) => Availability::Available(v),
        _ => field.failed(),
    }
}

/// Merges the value a reply brought for one field into that field.
pub fn merge_field<T>(field: &mut Availability<T>, new: Availability<T>)
    ensures
        *final(field) == merged(*old(field), new),
{
    match new {
        Availability::Available(v) => {
            *field = Availability::Available(v);
        },
        _ => {
            field.mark_failed();
        },
    }
}

/// Everything the widget displays: live PV power and the solar yield of
/// today, this and last month, this and last year.
pub struct SolarData<T> {
    pub pv_power_w: Availability<T>,
    pub today_kwh: Availability<T>,
    pub month_kwh: Availability<T>,
    pub last_month_kwh: Availability<T>,
    pub year_kwh: Availability<T>,
    pub last_year_kwh: Availability<T>,
}

/// What the host answered to one poll, as far as the widget reads it.
pub enum Reply<T> {
    /// The fetch did not succeed.
    FetchFailed,
    /// The fetch succeeded but its body was not valid JSON.
    Malformed,
    /// The six values read out of the JSON reply, each of them missing or
    /// unparsable on its own.
    Values(SolarData<T>),
}

/// What the widget does after a reply, besides redrawing.
pub enum ReplyAction {
    Redraw,
    RetryAndRedraw,
}

impl<T> SolarData<T> {
    /// The field that holds the reading of `field`.
    pub open spec fn field(self, field: ReplyField) -> Availability<T> {
        match field {
            ReplyField::PvPower => self.pv_power_w,
            ReplyField::Today => self.today_kwh,
            ReplyField::Month => self.month_kwh,
            ReplyField::LastMonth => self.last_month_kwh,
            ReplyField::Year => self.year_kwh,
            ReplyField::LastYear => self.last_year_kwh,
        }
    }

    /// Sets the reading of `field` to `value`, leaving the other five alone.
    pub fn set_field(&mut self, field: ReplyField, value: Availability<T>)
        ensures
            final(self).field(field) == value,
            forall|other: ReplyField| other != field ==> #[trigger] final(self).field(other) == old(self).field(other),
    {
        match field {
            ReplyField::PvPower => self.pv_power_w = value,
            ReplyField::Today => self.today_kwh = value,
            ReplyField::Month => self.month_kwh = value,
            ReplyField::LastMonth => self.last_month_kwh = value,
            ReplyField::Year => self.year_kwh = value,
            ReplyField::LastYear => self.last_year_kwh = value,
        }
    }

    /// Every field marked failed, values already held kept.
    pub open spec fn all_failed(self) -> SolarData<T> {
        SolarData {
            pv_power_w: self.pv_power_w.failed(),
            today_kwh: self.today_kwh.failed(),
            month_kwh: self.month_kwh.failed(),
            last_month_kwh: self.last_month_kwh.failed(),
            year_kwh: self.year_kwh.failed(),
            last_year_kwh: self.last_year_kwh.failed(),
        }
    }

    /// Each field merged with the value the reply brought for it alone.
    pub open spec fn merged_with(self, reply: SolarData<T>) -> SolarData<T> {
        SolarData {
            pv_power_w: merged(self.pv_power_w, reply.pv_power_w),
            today_kwh: merged(self.today_kwh, reply.today_kwh),
            month_kwh: merged(self.month_kwh, reply.month_kwh),
            last_month_kwh: merged(self.last_month_kwh, reply.last_month_kwh),
            year_kwh: merged(self.year_kwh, reply.year_kwh),
            last_year_kwh: merged(self.last_year_kwh, reply.last_year_kwh),
        }
    }

    /// The state after `reply`.
    pub open spec fn after_reply(self, reply: Reply<T>) -> SolarData<T> {
        match reply {
            Reply::FetchFailed => self.all_failed(),
            Reply::Malformed => self,
            Reply::Values(values) => self.merged_with(values),
        }
    }

    /// Applies one reply: a failed fetch marks all six fields failed; a
    /// reply that is not JSON changes nothing and asks for a retry; a JSON
    /// reply merges each field on its own.
    pub fn apply_reply(&mut self, reply: Reply<T>) -> (action: ReplyAction)
        ensures
            *final(self) == old(self).after_reply(reply),
            action is RetryAndRedraw <==> reply is Malformed,
    {
        match reply {
            Reply::FetchFailed => {
                self.pv_power_w.mark_failed();
                self.today_kwh.mark_failed();
                self.month_kwh.mark_failed();
                self.last_month_kwh.mark_failed();
                self.year_kwh.mark_failed();
                self.last_year_kwh.mark_failed();
                ReplyAction::Redraw
            },
            Reply::Malformed => ReplyAction::RetryAndRedraw,
            Reply::Values(values) => {
                merge_field(&mut self.pv_power_w, values.pv_power_w);
                merge_field(&mut self.today_kwh, values.today_kwh);
                merge_field(&mut self.month_kwh, values.month_kwh);
                merge_field(&mut self.last_month_kwh, values.last_month_kwh);
                merge_field(&mut self.year_kwh, values.year_kwh);
                merge_field(&mut self.last_year_kwh, values.last_year_kwh);
                ReplyAction::Redraw
            },
        }
    }
}

impl<T> Default for SolarData<T> {
    /// Nothing read yet: every field unavailable.
    fn default() -> (blank: SolarData<T>)
        ensures
            blank.pv_power_w is Unavailable,
            blank.today_kwh is Unavailable,
            blank.month_kwh is Unavailable,
            blank.last_month_kwh is Unavailable,
            blank.year_kwh is Unavailable,
            blank.last_year_kwh is Unavailable,
    {
        SolarData {
            pv_power_w: Availability::Unavailable,
            today_kwh: Availability::Unavailable,
            month_kwh: Availability::Unavailable,
            last_month_kwh: Availability::Unavailable,
            year_kwh: Availability::Unavailable,
            last_year_kwh: Availability::Unavailable,
        }
    }
}

/// A missing or unparsable value in a reply, and a failed fetch, keep the
/// last value a field held; a fresh value always replaces it.
pub proof fn lemma_failure_keeps_last_value<T>(field: Availability<T>, new: Availability<T>)
    ensures
        field is Available && !(new is Available) ==> merged(field, new) == field,
        field is Available ==> field.failed() == field,
        !(field is Available) ==> field.failed() is Failed,
        new is Available ==> merged(field, new) == new,
        !(field is Available) && !(new is Available) ==> merged(field, new) is Failed,
{
}

/// Marking failed twice is marking failed once, and a failure never leaves
/// a field unavailable.
pub proof fn lemma_failure_idempotent<T>(data: SolarData<T>)
    ensures
        data.all_failed().all_failed() == data.all_failed(),
        !(data.all_failed().pv_power_w is Unavailable),
        !(data.all_failed().today_kwh is Unavailable),
        !(data.all_failed().month_kwh is Unavailable),
        !(data.all_failed().last_month_kwh is Unavailable),
        !(data.all_failed().year_kwh is Unavailable),
        !(data.all_failed().last_year_kwh is Unavailable),
{
}

/// A reply that brings all six values replaces the whole state with them,
/// whatever it was.
pub proof fn lemma_complete_reply_replaces_all<T>(data: SolarData<T>, values: SolarData<T>)
    requires
        values.pv_power_w is Available,
        values.today_kwh is Available,
        values.month_kwh is Available,
        values.last_month_kwh is Available,
        values.year_kwh is Available,
        values.last_year_kwh is Available,
    ensures
        data.after_reply(Reply::Values(values)) == values,
{
}

/// After a failed fetch every reading that held a value still holds that
/// same value, and every other reading is failed; no field is treated
/// differently from the others.
pub proof fn lemma_failed_fetch_keeps_every_value<T>(old: SolarData<T>, after: SolarData<T>)
    requires
        after == old.after_reply(Reply::FetchFailed),
    ensures
        forall|v: T| old.pv_power_w == Availability::Available(v) ==> after.pv_power_w == Availability::Available(v),
        !(old.pv_power_w is Available) ==> after.pv_power_w is Failed,
        forall|v: T| old.today_kwh == Availability::Available(v) ==> after.today_kwh == Availability::Available(v),
        !(old.today_kwh is Available) ==> after.today_kwh is Failed,
        forall|v: T| old.month_kwh == Availability::Available(v) ==> after.month_kwh == Availability::Available(v),
        !(old.month_kwh is Available) ==> after.month_kwh is Failed,
        forall|v: T| old.last_month_kwh == Availability::Available(v) ==> after.last_month_kwh == Availability::Available(v),
        !(old.last_month_kwh is Available) ==> after.last_month_kwh is Failed,
        forall|v: T| old.year_kwh == Availability::Available(v) ==> after.year_kwh == Availability::Available(v),
        !(old.year_kwh is Available) ==> after.year_kwh is Failed,
        forall|v: T| old.last_year_kwh == Availability::Available(v) ==> after.last_year_kwh == Availability::Available(v),
        !(old.last_year_kwh is Available) ==> after.last_year_kwh is Failed,
{
}

/// After a JSON reply each reading depends only on its own old value and
/// its own new value: a fresh value replaces it; a missing one keeps the
/// value it held, or leaves it failed if it held none.
pub proof fn lemma_reply_merges_each_field_alone<T>(old: SolarData<T>, values: SolarData<T>, after: SolarData<T>)
    requires
        after == old.after_reply(Reply::Values(values)),
    ensures
        forall|v: T| values.pv_power_w == Availability::Available(v) ==> after.pv_power_w == Availability::Available(v),
        forall|w: T| !(values.pv_power_w is Available) && old.pv_power_w == Availability::Available(w) ==> after.pv_power_w == Availability::Available(w),
        !(values.pv_power_w is Available) && !(old.pv_power_w is Available) ==> after.pv_power_w is Failed,
        forall|v: T| values.today_kwh == Availability::Available(v) ==> after.today_kwh == Availability::Available(v),
        forall|w: T| !(values.today_kwh is Available) && old.today_kwh == Availability::Available(w) ==> after.today_kwh == Availability::Available(w),
        !(values.today_kwh is Available) && !(old.today_kwh is Available) ==> after.today_kwh is Failed,
        forall|v: T| values.month_kwh == Availability::Available(v) ==> after.month_kwh == Availability::Available(v),
        forall|w: T| !(values.month_kwh is Available) && old.month_kwh == Availability::Available(w) ==> after.month_kwh == Availability::Available(w),
        !(values.month_kwh is Available) && !(old.month_kwh is Available) ==> after.month_kwh is Failed,
        forall|v: T| values.last_month_kwh == Availability::Available(v) ==> after.last_month_kwh == Availability::Available(v),
        forall|w: T| !(values.last_month_kwh is Available) && old.last_month_kwh == Availability::Available(w) ==> after.last_month_kwh == Availability::Available(w),
        !(values.last_month_kwh is Available) && !(old.last_month_kwh is Available) ==> after.last_month_kwh is Failed,
        forall|v: T| values.year_kwh == Availability::Available(v) ==> after.year_kwh == Availability::Available(v),
        forall|w: T| !(values.year_kwh is Available) && old.year_kwh == Availability::Available(w) ==> after.year_kwh == Availability::Available(w),
        !(values.year_kwh is Available) && !(old.year_kwh is Available) ==> after.year_kwh is Failed,
        forall|v: T| values.last_year_kwh == Availability::Available(v) ==> after.last_year_kwh == Availability::Available(v),
        forall|w: T| !(values.last_year_kwh is Available) && old.last_year_kwh == Availability::Available(w) ==> after.last_year_kwh == Availability::Available(w),
        !(values.last_year_kwh is Available) && !(old.last_year_kwh is Available) ==> after.last_year_kwh is Failed,
{
}

/// Each reply field names the reading of the same name: PV power, today,
/// this month, last month, this year, last year.
pub proof fn lemma_field_names_its_reading<T>(data: SolarData<T>)
    ensures
        data.field(ReplyField::PvPower) == data.pv_power_w,
        data.field(ReplyField::Today) == data.today_kwh,
        data.field(ReplyField::Month) == data.month_kwh,
        data.field(ReplyField::LastMonth) == data.last_month_kwh,
        data.field(ReplyField::Year) == data.year_kwh,
        data.field(ReplyField::LastYear) == data.last_year_kwh,
{
}

/// A reply that is not JSON leaves every reading as it was.
pub proof fn lemma_malformed_reply_changes_nothing<T>(old: SolarData<T>)
    ensures
        old.after_reply(Reply::Malformed) == old,
{
}

} // verus!
