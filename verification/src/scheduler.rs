//! The scheduling rules: one work item per configured site sharing one
//! notifier, a staggered launch so the loops do not all fire at process
//! start, and the per-iteration policy that decides what one poll outcome
//! leads to. The loops themselves — threads, sleeps and fetches — run in the
//! surrounding binary, which consults these functions.

use vstd::prelude::*;
use vstd::string::StringExecFns;
use crate::NotifyData;
use crate::ConfigError;
use crate::PollError;
use crate::settings::Settings;
use crate::settings::Site;
use crate::settings::TelegramSettings;
use crate::telegram_notifier::TelegramNotifier;

verus! {

/// Seconds between the launches of two successive per-site loops.
pub const LAUNCH_STAGGER_SECONDS: u64 = 2;

/// One configured site paired with its own polling loop; the shared notifier
/// lives on the scheduler.
pub struct WorkItem {
    pub site: Site,
}

/// The full set of configured sites and the one delivery sink they share.
pub struct Scheduler {
    pub work_items: Vec<WorkItem>,
    pub notifier: TelegramNotifier,
}

impl Scheduler {
    /// One work item per configured site, in configuration order, all
    /// sharing one notifier built from the loaded credentials.
    pub fn new(sites: Vec<Site>, telegram: TelegramSettings) -> (r: Result<Scheduler, ConfigError>)
        ensures
            r is Ok,
            r matches Ok(s) ==> {
                &&& s.work_items@.len() == sites@.len()
                &&& forall|i: int|
                    0 <= i < sites@.len() ==> (#[trigger] s.work_items@[i]).site@ == sites@[i]@
                &&& s.notifier.token_spec() == telegram.token@
                &&& s.notifier.chat_id_spec() == telegram.chat_id@
            },
    {
        let notifier = match TelegramNotifier::new(telegram) {
            Ok(n) => n,
            Err(e) => {
                return Err(e);
            },
        };
        let mut items: Vec<WorkItem> = Vec::new();
        let mut i: usize = 0;
        while i < sites.len()
            invariant
                i <= sites@.len(),
                items@.len() == i,
                forall|k: int| 0 <= k < i ==> (#[trigger] items@[k]).site@ == sites@[k]@,
            decreases sites@.len() - i,
        {
            items.push(WorkItem { site: sites[i].duplicate() });
            i = i + 1;
        }
        Ok(Scheduler { work_items: items, notifier })
    }

    /// The fixed notification the scheduler sends once at startup.
    pub fn startup_notification(&self) -> (r: NotifyData)
        ensures
            r.site_name@ == "Local"@,
            r.message@ == "The bot is starting"@,
    {
        NotifyData {
            site_name: String::from_str("Local"),
            message: String::from_str("The bot is starting"),
        }
    }
}

/// How long after process start the polling loop of the site at `index` may
/// send its first request: the launch stagger times the number of loops
/// launched before it (saturating at the largest representable delay).
pub fn launch_offset_seconds(index: usize) -> (r: u64)
    ensures
        r as int == if LAUNCH_STAGGER_SECONDS as int * index as int <= u64::MAX as int {
            LAUNCH_STAGGER_SECONDS as int * index as int
        } else {
            u64::MAX as int
        },
{
    let idx = index as u64;
    if idx <= u64::MAX / LAUNCH_STAGGER_SECONDS {
        idx * LAUNCH_STAGGER_SECONDS
    } else {
        u64::MAX
    }
}

/// What one iteration of a polling loop does next.
pub enum PollAction {
    /// A notification fired: deliver it through the shared notifier.
    Deliver(NotifyData),
    /// The attempt failed: log it and keep the loop alive — an error never
    /// terminates a loop.
    Log(PollError),
    /// Nothing notify-worthy: sleep until the next interval.
    Idle,
}

/// The per-iteration policy of every polling loop.
pub fn poll_action(outcome: Result<Option<NotifyData>, PollError>) -> (r: PollAction)
    ensures
        match outcome {
            Ok(Some(d)) => r == PollAction::Deliver(d),
            Ok(None) => r == PollAction::Idle,
            Err(e) => r == PollAction::Log(e),
        },
{
    match outcome {
        Ok(Some(d)) => PollAction::Deliver(d),
        Ok(None) => PollAction::Idle,
        Err(e) => PollAction::Log(e),
    }
}

/// Build the scheduler out of the final merged configuration: the verified
/// core of process startup.
pub fn crawler_main(settings: Settings) -> (r: Result<Scheduler, ConfigError>)
    ensures
        r is Ok,
        r matches Ok(s) ==> {
            &&& s.work_items@.len() == settings.sites@.len()
            &&& forall|i: int|
                0 <= i < settings.sites@.len() ==> (#[trigger] s.work_items@[i]).site@
                    == settings.sites@[i]@
            &&& s.notifier.token_spec() == settings.telegram.token@
            &&& s.notifier.chat_id_spec() == settings.telegram.chat_id@
        },
{
    Scheduler::new(settings.sites, settings.telegram)
}

} // verus!
