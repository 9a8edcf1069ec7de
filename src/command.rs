use vstd::prelude::*;
use crate::text::same_text;

verus! {

/// A statistics request understood by the node.
#[derive(Clone, Copy, Debug, PartialEq, Eq, Structural)]
pub enum Command {
    /// Legacy three-field answer: pending ops, op-log file size, op-log count.
    OplogState,
    /// Five-field answer: the three op-log fields and two moving averages.
    MetricsState,
}

/// One positional field of a statistics answer.
#[derive(Clone, Copy, Debug, PartialEq, Eq, Structural)]
pub enum Field {
    PendingOps,
    OpLogFileSize,
    OpLogCount,
    ReplicationTimeMovingAvg,
    QueryTimeMovingAvg,
}

impl Command {
    /// The command word sent after the credentials.
    pub open spec fn spec_token(self) -> Seq<char> {
        match self {
            Command::OplogState => "oplog-state"@,
            Command::MetricsState => "metrics-state"@,
        }
    }

    /// The fields of the answer, in wire order.
    pub open spec fn spec_fields(self) -> Seq<Field> {
        match self {
            Command::OplogState => seq![Field::PendingOps, Field::OpLogFileSize, Field::OpLogCount],
            Command::MetricsState => seq![
                Field::PendingOps,
                Field::OpLogFileSize,
                Field::OpLogCount,
                Field::ReplicationTimeMovingAvg,
                Field::QueryTimeMovingAvg,
            ],
        }
    }

    pub open spec fn field_count(self) -> nat {
        self.spec_fields().len()
    }

    pub fn token(&self) -> (r: &'static str)
        ensures
            r@ == self.spec_token(),
    {
        match self {
            Command::OplogState => "oplog-state",
            Command::MetricsState => "metrics-state",
        }
    }

    /// The command whose word is `token`, if any.
    pub fn from_token(token: &str) -> (r: Option<Command>)
        ensures
            match r {
                Some(c) => c.spec_token() == token@,
                None => token@ != Command::OplogState.spec_token() && token@
                    != Command::MetricsState.spec_token(),
            },
    {
        if same_text(token, "oplog-state") {
            Some(Command::OplogState)
        } else if same_text(token, "metrics-state") {
            Some(Command::MetricsState)
        } else {
            None
        }
    }

    pub fn fields(&self) -> (r: Vec<Field>)
        ensures
            r@ == self.spec_fields(),
    {
        let r = match self {
            Command::OplogState => vec![Field::PendingOps, Field::OpLogFileSize, Field::OpLogCount],
            Command::MetricsState => vec![
                Field::PendingOps,
                Field::OpLogFileSize,
                Field::OpLogCount,
                Field::ReplicationTimeMovingAvg,
                Field::QueryTimeMovingAvg,
            ],
        };
        proof {
            assert(r@ =~= self.spec_fields());
        }
        r
    }

    pub fn expected_field_count(&self) -> (r: usize)
        ensures
            r == self.field_count(),
    {
        match self {
            Command::OplogState => 3,
            Command::MetricsState => 5,
        }
    }
}

impl Field {
    /// The key the node writes before the value.
    pub fn key(&self) -> (r: &'static str)
        ensures
            r@ == self.spec_key(),
    {
        match self {
            Field::PendingOps => "pending_ops",
            Field::OpLogFileSize => "op_log_file_size",
            Field::OpLogCount => "op_log_count",
            Field::ReplicationTimeMovingAvg => "replication_time_moving_avg",
            Field::QueryTimeMovingAvg => "query_time_moving_avg",
        }
    }

    pub open spec fn spec_key(self) -> Seq<char> {
        match self {
            Field::PendingOps => "pending_ops"@,
            Field::OpLogFileSize => "op_log_file_size"@,
            Field::OpLogCount => "op_log_count"@,
            Field::ReplicationTimeMovingAvg => "replication_time_moving_avg"@,
            Field::QueryTimeMovingAvg => "query_time_moving_avg"@,
        }
    }

    /// The name of the gauge that publishes this field.
    pub fn gauge_name(&self) -> (r: &'static str)
        ensures
            r@ == self.spec_gauge_name(),
    {
        match self {
            Field::PendingOps => "nun_db_op_log_pending_ops",
            Field::OpLogFileSize => "nun_db_op_log_file_size",
            Field::OpLogCount => "nun_db_op_log_ops",
            Field::ReplicationTimeMovingAvg => "nun_db_replication_time_moving_avg",
            Field::QueryTimeMovingAvg => "nun_db_query_time_moving_avg",
        }
    }

    pub open spec fn spec_gauge_name(self) -> Seq<char> {
        match self {
            Field::PendingOps => "nun_db_op_log_pending_ops"@,
            Field::OpLogFileSize => "nun_db_op_log_file_size"@,
            Field::OpLogCount => "nun_db_op_log_ops"@,
            Field::ReplicationTimeMovingAvg => "nun_db_replication_time_moving_avg"@,
            Field::QueryTimeMovingAvg => "nun_db_query_time_moving_avg"@,
        }
    }

    /// The help line of the gauge that publishes this field.
    pub fn help(&self) -> (r: &'static str)
        ensures
            r@ == self.spec_help(),
    {
        match self {
            Field::PendingOps => "Number pending ops in oplog from primary to secondaries",
            Field::OpLogFileSize => "Op log file size in bytes",
            Field::OpLogCount => "Count of oplog operations stored in the op log file",
            Field::ReplicationTimeMovingAvg => "Exponential moving average of the replication time in ms, time from primary to secondary to ack message being received",
            Field::QueryTimeMovingAvg => "Exponential moving average of the query processing time in ms",
        }
    }

    pub open spec fn spec_help(self) -> Seq<char> {
        match self {
            Field::PendingOps => "Number pending ops in oplog from primary to secondaries"@,
            Field::OpLogFileSize => "Op log file size in bytes"@,
            Field::OpLogCount => "Count of oplog operations stored in the op log file"@,
            Field::ReplicationTimeMovingAvg => "Exponential moving average of the replication time in ms, time from primary to secondary to ack message being received"@,
            Field::QueryTimeMovingAvg => "Exponential moving average of the query processing time in ms"@,
        }
    }
}

} // verus!
