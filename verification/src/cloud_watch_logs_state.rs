//! Per-service state for the log-browsing service: the cached list of log
//! groups and the current selection.

use vstd::prelude::*;

verus! {

/// One log group as the listing operation reports it.
pub struct CloudWatchLogGroup {
    pub arn: String,
    pub name: Option<String>,
    pub date_created: Option<i64>,
    pub retention_days: Option<i32>,
    pub stored_bytes: Option<i64>,
    pub log_streams: Vec<CloudWatchLogStream>,
}

/// One log stream of a log group.
pub struct CloudWatchLogStream {
    pub arn: String,
    pub log_stream_name: Option<String>,
    pub creation_time: Option<i64>,
    pub first_event_timestamp: Option<i64>,
    pub last_event_timestamp: Option<i64>,
    pub last_ingestion_time: Option<i64>,
    pub stored_bytes: Option<i64>,
}

/// The cached log-group listing plus the user's selection.
pub struct CloudWatchState {
    pub log_groups: Vec<CloudWatchLogGroup>,
    pub selected_log_group: Option<CloudWatchLogGroup>,
}

/// Mathematical abstraction of [`CloudWatchLogStream`].
#[verifier::ext_equal]
pub struct CloudWatchLogStreamView {
    pub arn: Seq<char>,
    pub log_stream_name: Option<Seq<char>>,
    pub creation_time: Option<i64>,
    pub first_event_timestamp: Option<i64>,
    pub last_event_timestamp: Option<i64>,
    pub last_ingestion_time: Option<i64>,
    pub stored_bytes: Option<i64>,
}

impl View for CloudWatchLogStream {
    type V = CloudWatchLogStreamView;

    open spec fn view(&self) -> CloudWatchLogStreamView {
        CloudWatchLogStreamView {
            arn: self.arn@,
            log_stream_name: self.log_stream_name.deep_view(),
            creation_time: self.creation_time,
            first_event_timestamp: self.first_event_timestamp,
            last_event_timestamp: self.last_event_timestamp,
            last_ingestion_time: self.last_ingestion_time,
            stored_bytes: self.stored_bytes,
        }
    }
}

impl DeepView for CloudWatchLogStream {
    type V = CloudWatchLogStreamView;

    open spec fn deep_view(&self) -> CloudWatchLogStreamView {
        self.view()
    }
}

/// Mathematical abstraction of [`CloudWatchLogGroup`].
#[verifier::ext_equal]
pub struct CloudWatchLogGroupView {
    pub arn: Seq<char>,
    pub name: Option<Seq<char>>,
    pub date_created: Option<i64>,
    pub retention_days: Option<i32>,
    pub stored_bytes: Option<i64>,
    pub log_streams: Seq<CloudWatchLogStreamView>,
}

impl View for CloudWatchLogGroup {
    type V = CloudWatchLogGroupView;

    open spec fn view(&self) -> CloudWatchLogGroupView {
        CloudWatchLogGroupView {
            arn: self.arn@,
            name: self.name.deep_view(),
            date_created: self.date_created,
            retention_days: self.retention_days,
            stored_bytes: self.stored_bytes,
            log_streams: self.log_streams.deep_view(),
        }
    }
}

impl DeepView for CloudWatchLogGroup {
    type V = CloudWatchLogGroupView;

    open spec fn deep_view(&self) -> CloudWatchLogGroupView {
        self.view()
    }
}

/// Mathematical abstraction of [`CloudWatchState`].
#[verifier::ext_equal]
pub struct CloudWatchStateView {
    pub log_groups: Seq<CloudWatchLogGroupView>,
    pub selected_log_group: Option<CloudWatchLogGroupView>,
}

impl View for CloudWatchState {
    type V = CloudWatchStateView;

    open spec fn view(&self) -> CloudWatchStateView {
        CloudWatchStateView {
            log_groups: self.log_groups.deep_view(),
            selected_log_group: self.selected_log_group.deep_view(),
        }
    }
}

/// The view of a state with no cached log groups and no selection.
pub open spec fn empty_cloud_watch_state() -> CloudWatchStateView {
    CloudWatchStateView { log_groups: Seq::empty(), selected_log_group: None }
}

impl Default for CloudWatchState {
    /// No cached log groups, nothing selected.
    fn default() -> (r: CloudWatchState)
        ensures
            r@ == empty_cloud_watch_state(),
    {
        let r = CloudWatchState { log_groups: Vec::new(), selected_log_group: None };
        assert(r@ =~= empty_cloud_watch_state());
        r
    }
}

impl CloudWatchLogStream {
    /// A structurally equal copy of this stream record.
    pub fn duplicate(&self) -> (r: CloudWatchLogStream)
        ensures
            r@ == self@,
    {
        let r = CloudWatchLogStream {
            arn: self.arn.clone(),
            log_stream_name: clone_opt_string(&self.log_stream_name),
            creation_time: self.creation_time,
            first_event_timestamp: self.first_event_timestamp,
            last_event_timestamp: self.last_event_timestamp,
            last_ingestion_time: self.last_ingestion_time,
            stored_bytes: self.stored_bytes,
        };
        assert(r@ =~= self@);
        r
    }
}

impl CloudWatchLogGroup {
    /// A structurally equal copy of this group record.
    pub fn duplicate(&self) -> (r: CloudWatchLogGroup)
        ensures
            r@ == self@,
    {
        let mut streams: Vec<CloudWatchLogStream> = Vec::new();
        let mut i: usize = 0;
        while i < self.log_streams.len()
            invariant
                i <= self.log_streams.len(),
                streams@.len() == i,
                forall|j: int| 0 <= j < i ==> (#[trigger] streams@[j])@ == self.log_streams@[j]@,
            decreases self.log_streams.len() - i,
        {
            streams.push(self.log_streams[i].duplicate());
            i = i + 1;
        }
        assert forall|j: int| 0 <= j < streams.deep_view().len() implies streams.deep_view()[j]
            == self.log_streams.deep_view()[j] by {
            assert(streams.deep_view()[j] == streams@[j]@);
            assert(self.log_streams.deep_view()[j] == self.log_streams@[j]@);
        }
        assert(streams.deep_view() =~= self.log_streams.deep_view());
        let r = CloudWatchLogGroup {
            arn: self.arn.clone(),
            name: clone_opt_string(&self.name),
            date_created: self.date_created,
            retention_days: self.retention_days,
            stored_bytes: self.stored_bytes,
            log_streams: streams,
        };
        assert(r@ =~= self@);
        r
    }
}

impl CloudWatchState {
    /// A structurally equal copy of this per-service state.
    pub fn duplicate(&self) -> (r: CloudWatchState)
        ensures
            r@ == self@,
    {
        let mut groups: Vec<CloudWatchLogGroup> = Vec::new();
        let mut i: usize = 0;
        while i < self.log_groups.len()
            invariant
                i <= self.log_groups.len(),
                groups@.len() == i,
                forall|j: int| 0 <= j < i ==> (#[trigger] groups@[j])@ == self.log_groups@[j]@,
            decreases self.log_groups.len() - i,
        {
            groups.push(self.log_groups[i].duplicate());
            i = i + 1;
        }
        assert forall|j: int| 0 <= j < groups.deep_view().len() implies groups.deep_view()[j]
            == self.log_groups.deep_view()[j] by {
            assert(groups.deep_view()[j] == groups@[j]@);
            assert(self.log_groups.deep_view()[j] == self.log_groups@[j]@);
        }
        assert(groups.deep_view() =~= self.log_groups.deep_view());
        let selected = match &self.selected_log_group {
            Some(g) => Some(g.duplicate()),
            None => None,
        };
        let r = CloudWatchState { log_groups: groups, selected_log_group: selected };
        assert(r@ =~= self@);
        r
    }
}

/// A structurally equal copy of an optional string.
pub fn clone_opt_string(s: &Option<String>) -> (r: Option<String>)
    ensures
        r.deep_view() == s.deep_view(),
{
    match s {
        Some(x) => Some(x.clone()),
        None => None,
    }
}

} // verus!
