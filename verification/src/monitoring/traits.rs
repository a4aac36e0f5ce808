use vstd::prelude::*;
use crate::models::metrics::{ProcessMetrics, ServerMetrics};
use crate::monitoring::{
    action_views, latest_of, monitored, sample_view, start_actions, started, MonitorAction,
    MonitoringService,
};

verus! {

/// What the readers of metrics need of a registry, so that they can be
/// given a stand-in. The trait itself promises nothing; the registry's own
/// implementation states what it does.
pub trait MonitoringServiceTrait {
    /// The latest sample of the server that has been monitored longest.
    fn get_current_metrics(&self) -> (r: Option<ServerMetrics>);

    /// The latest sample of `server_id`, with the actions that the read
    /// asks for.
    fn get_server_metrics(&mut self, server_id: &str, registered: bool) -> (r: (
        Option<ServerMetrics>,
        Vec<MonitorAction>,
    ));

    /// The processes of the latest sample of `server_id`.
    fn get_server_processes(&self, server_id: &str) -> (r: Option<Vec<ProcessMetrics>>);
}

impl MonitoringServiceTrait for MonitoringService {
    fn get_current_metrics(&self) -> (r: Option<ServerMetrics>)
        ensures
            sample_view(r) == (if self@.len() == 0 {
                None
            } else {
                self@[0].collector.latest
            }),
    {
        MonitoringService::get_current_metrics(self)
    }

    fn get_server_metrics(&mut self, server_id: &str, registered: bool) -> (r: (
        Option<ServerMetrics>,
        Vec<MonitorAction>,
    ))
        ensures
            sample_view(r.0) == latest_of(old(self)@, server_id@),
            monitored(old(self)@, server_id@) ==> final(self)@ == old(self)@ && r.1@.len() == 0,
            !monitored(old(self)@, server_id@) && registered ==> final(self)@ == started(
                old(self)@,
                server_id@,
            ) && action_views(r.1@) == start_actions(old(self)@, server_id@),
            !monitored(old(self)@, server_id@) && !registered ==> final(self)@ == old(self)@
                && r.1@.len() == 0,
    {
        MonitoringService::get_server_metrics(self, server_id, registered)
    }

    fn get_server_processes(&self, server_id: &str) -> (r: Option<Vec<ProcessMetrics>>)
        ensures
            match latest_of(self@, server_id@) {
                Some(sample) => r is Some && r->Some_0@ == sample.processes,
                None => r is None,
            },
    {
        MonitoringService::get_server_processes(self, server_id)
    }
}

} // verus!
