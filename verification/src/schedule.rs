use vstd::prelude::*;
use crate::config::{NameConf, NameState};
use crate::errors::RenewError;

verus! {

/// The deadline of the renewal after this one: the current time plus the
/// configured interval, in epoch seconds.
pub fn next(now_secs: u64, interval_secs: u64) -> (r: Result<u64, RenewError>)
    ensures
        now_secs + interval_secs <= u64::MAX ==> (r matches Ok(n) && n == now_secs
            + interval_secs),
        now_secs + interval_secs > u64::MAX ==> (r matches Err(RenewError::ClockOverflow)),
{
    if interval_secs <= u64::MAX - now_secs {
        Ok(now_secs + interval_secs)
    } else {
        Err(RenewError::ClockOverflow)
    }
}

/// Whether a name must be renewed now: there is no persisted state, or
/// the state was written for another name (a rename), or its deadline has
/// passed. The prior deadline counts for nothing once the name differs.
pub open spec fn due_now(persisted: Option<NameState>, conf_name: Seq<char>, now_secs: u64) -> bool {
    match persisted {
        None => true,
        Some(st) => st.name@ != conf_name || st.next <= now_secs,
    }
}

/// The outcome of the due decision: skip the name untouched, or renew it
/// and persist the given freshly computed state afterwards.
pub enum DueDecision {
    NotDue,
    Due { state: NameState },
}

/// Decides whether a name's renewal is due. A due name always gets a
/// state computed anew from the current time, never the prior one copied
/// forward.
pub fn decide_due(persisted: &Option<NameState>, conf: &NameConf, now_secs: u64) -> (r: Result<
    DueDecision,
    RenewError,
>)
    ensures
        !due_now(*persisted, conf.name@, now_secs) ==> (r matches Ok(DueDecision::NotDue)),
        due_now(*persisted, conf.name@, now_secs) && now_secs + conf.renew_interval_secs
            <= u64::MAX ==> (r matches Ok(DueDecision::Due { state }) && state.name@ == conf.name@
            && state.next == now_secs + conf.renew_interval_secs),
        due_now(*persisted, conf.name@, now_secs) && now_secs + conf.renew_interval_secs
            > u64::MAX ==> (r matches Err(RenewError::ClockOverflow)),
{
    let is_due = match persisted {
        None => true,
        Some(st) => !crate::text::str_equal(st.name.as_str(), conf.name.as_str()) || st.next
            <= now_secs,
    };
    if !is_due {
        return Ok(DueDecision::NotDue);
    }
    match next(now_secs, conf.renew_interval_secs) {
        Ok(n) => Ok(DueDecision::Due { state: NameState::new(conf.name.as_str(), n) }),
        Err(e) => Err(e),
    }
}

/// A persisted state written for another name never blocks renewal: the
/// name is due no matter how far away the old deadline lies.
pub proof fn law_rename_forces_due(st: NameState, conf_name: Seq<char>, now_secs: u64)
    requires
        st.name@ != conf_name,
    ensures
        due_now(Some(st), conf_name, now_secs),
{
}

} // verus!
