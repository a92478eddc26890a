use vstd::prelude::*;

verus! {

/// The configuration values that a snapshot reports, in the order of the report.
#[derive(Clone, Copy, Debug, PartialEq, Eq, Structural)]
pub enum ConfigField {
    Dir,
    DirWarnIfExists,
    ThreadingMode,
    DirDeleteOnStart,
    DirDeleteOnShutdown,
    ToConductorBufferLength,
    ToClientsBufferLength,
    CountersBufferLength,
    ErrorBufferLength,
    ClientLivenessTimeoutNs,
    TermBufferLength,
    IpcTermBufferLength,
    TermBufferSparseFile,
    PerformStorageChecks,
    LowFileStoreWarningThreshold,
    SpiesSimulateConnection,
    FilePageSize,
    MtuLength,
    IpcMtuLength,
    IpcPublicationTermWindowLength,
    PublicationTermWindowLength,
    PublicationLingerTimeoutNs,
    SocketSoRcvbuf,
    SocketSoSndbuf,
    SocketMulticastTtl,
    SendToStatusPollRatio,
    RcvStatusMessageTimeoutNs,
    MulticastFlowControlSupplier,
    UnicastFlowControlSupplier,
    ImageLivenessTimeoutNs,
    RcvInitialWindowLength,
    CongestionControlSupplier,
    LossReportBufferLength,
    PublicationUnblockTimeoutNs,
    PublicationConnectionTimeoutNs,
    TimerIntervalNs,
    SenderIdleStrategy,
    ConductorIdleStrategy,
    ReceiverIdleStrategy,
    SharedNetworkIdleStrategy,
    SharedIdleStrategy,
    SenderIdleStrategyInitArgs,
    ConductorIdleStrategyInitArgs,
    ReceiverIdleStrategyInitArgs,
    SharedNetworkIdleStrategyInitArgs,
    SharedIdleStrategyInitArgs,
}

/// The kinds of value that a field can hold.
#[derive(Clone, Copy, Debug, PartialEq, Eq, Structural)]
pub enum ValueKind {
    /// A string: a directory path or the name of an idle strategy.
    Text,
    /// A string that may be absent: the initialization arguments of an idle strategy.
    OptionalText,
    /// A switch.
    Flag,
    /// A byte length, a duration in nanoseconds, a ratio or a hop count.
    Number,
    /// The threading mode, as the number that the native layer uses for it.
    ThreadingMode,
    /// The address of a strategy supplier, where one is set.
    Supplier,
}

/// How many fields the table holds.
pub const FIELD_COUNT: usize = 46;

/// The table of fields: every field once, in the order of the report.
pub open spec fn field_table() -> Seq<ConfigField> {
    seq![
        ConfigField::Dir,
        ConfigField::DirWarnIfExists,
        ConfigField::ThreadingMode,
        ConfigField::DirDeleteOnStart,
        ConfigField::DirDeleteOnShutdown,
        ConfigField::ToConductorBufferLength,
        ConfigField::ToClientsBufferLength,
        ConfigField::CountersBufferLength,
        ConfigField::ErrorBufferLength,
        ConfigField::ClientLivenessTimeoutNs,
        ConfigField::TermBufferLength,
        ConfigField::IpcTermBufferLength,
        ConfigField::TermBufferSparseFile,
        ConfigField::PerformStorageChecks,
        ConfigField::LowFileStoreWarningThreshold,
        ConfigField::SpiesSimulateConnection,
        ConfigField::FilePageSize,
        ConfigField::MtuLength,
        ConfigField::IpcMtuLength,
        ConfigField::IpcPublicationTermWindowLength,
        ConfigField::PublicationTermWindowLength,
        ConfigField::PublicationLingerTimeoutNs,
        ConfigField::SocketSoRcvbuf,
        ConfigField::SocketSoSndbuf,
        ConfigField::SocketMulticastTtl,
        ConfigField::SendToStatusPollRatio,
        ConfigField::RcvStatusMessageTimeoutNs,
        ConfigField::MulticastFlowControlSupplier,
        ConfigField::UnicastFlowControlSupplier,
        ConfigField::ImageLivenessTimeoutNs,
        ConfigField::RcvInitialWindowLength,
        ConfigField::CongestionControlSupplier,
        ConfigField::LossReportBufferLength,
        ConfigField::PublicationUnblockTimeoutNs,
        ConfigField::PublicationConnectionTimeoutNs,
        ConfigField::TimerIntervalNs,
        ConfigField::SenderIdleStrategy,
        ConfigField::ConductorIdleStrategy,
        ConfigField::ReceiverIdleStrategy,
        ConfigField::SharedNetworkIdleStrategy,
        ConfigField::SharedIdleStrategy,
        ConfigField::SenderIdleStrategyInitArgs,
        ConfigField::ConductorIdleStrategyInitArgs,
        ConfigField::ReceiverIdleStrategyInitArgs,
        ConfigField::SharedNetworkIdleStrategyInitArgs,
        ConfigField::SharedIdleStrategyInitArgs,
    ]
}

impl ConfigField {
    /// The name under which the field is reported.
    pub open spec fn name_text(self) -> Seq<char> {
        match self {
            ConfigField::Dir => "dir"@,
            ConfigField::DirWarnIfExists => "dir_warn_if_exists"@,
            ConfigField::ThreadingMode => "threading_mode"@,
            ConfigField::DirDeleteOnStart => "dir_delete_on_start"@,
            ConfigField::DirDeleteOnShutdown => "dir_delete_on_shutdown"@,
            ConfigField::ToConductorBufferLength => "to_conductor_buffer_length"@,
            ConfigField::ToClientsBufferLength => "to_clients_buffer_length"@,
            ConfigField::CountersBufferLength => "counters_buffer_length"@,
            ConfigField::ErrorBufferLength => "error_buffer_length"@,
            ConfigField::ClientLivenessTimeoutNs => "client_liveness_timeout_ns"@,
            ConfigField::TermBufferLength => "term_buffer_length"@,
            ConfigField::IpcTermBufferLength => "ipc_term_buffer_length"@,
            ConfigField::TermBufferSparseFile => "term_buffer_sparse_file"@,
            ConfigField::PerformStorageChecks => "perform_storage_checks"@,
            ConfigField::LowFileStoreWarningThreshold => "low_file_store_warning_threshold"@,
            ConfigField::SpiesSimulateConnection => "spies_simulate_connection"@,
            ConfigField::FilePageSize => "file_page_size"@,
            ConfigField::MtuLength => "mtu_length"@,
            ConfigField::IpcMtuLength => "ipc_mtu_length"@,
            ConfigField::IpcPublicationTermWindowLength => "ipc_publication_term_window_length"@,
            ConfigField::PublicationTermWindowLength => "publication_term_window_length"@,
            ConfigField::PublicationLingerTimeoutNs => "publication_linger_timeout_ns"@,
            ConfigField::SocketSoRcvbuf => "socket_so_rcvbuf"@,
            ConfigField::SocketSoSndbuf => "socket_so_sndbuf"@,
            ConfigField::SocketMulticastTtl => "socket_multicast_ttl"@,
            ConfigField::SendToStatusPollRatio => "send_to_status_poll_ratio"@,
            ConfigField::RcvStatusMessageTimeoutNs => "rcv_status_message_timeout_ns"@,
            ConfigField::MulticastFlowControlSupplier => "multicast_flowcontrol_supplier"@,
            ConfigField::UnicastFlowControlSupplier => "unicast_flowcontrol_supplier"@,
            ConfigField::ImageLivenessTimeoutNs => "image_liveness_timeout_ns"@,
            ConfigField::RcvInitialWindowLength => "rcv_initial_window_length"@,
            ConfigField::CongestionControlSupplier => "congestioncontrol_supplier"@,
            ConfigField::LossReportBufferLength => "loss_report_buffer_length"@,
            ConfigField::PublicationUnblockTimeoutNs => "publication_unblock_timeout_ns"@,
            ConfigField::PublicationConnectionTimeoutNs => "publication_connection_timeout_ns"@,
            ConfigField::TimerIntervalNs => "timer_interval_ns"@,
            ConfigField::SenderIdleStrategy => "sender_idle_strategy"@,
            ConfigField::ConductorIdleStrategy => "conductor_idle_strategy"@,
            ConfigField::ReceiverIdleStrategy => "receiver_idle_strategy"@,
            ConfigField::SharedNetworkIdleStrategy => "sharednetwork_idle_strategy"@,
            ConfigField::SharedIdleStrategy => "shared_idle_strategy"@,
            ConfigField::SenderIdleStrategyInitArgs => "sender_idle_strategy_init_args"@,
            ConfigField::ConductorIdleStrategyInitArgs => "conductor_idle_strategy_init_args"@,
            ConfigField::ReceiverIdleStrategyInitArgs => "receiver_idle_strategy_init_args"@,
            ConfigField::SharedNetworkIdleStrategyInitArgs => "sharednetwork_idle_strategy_init_args"@,
            ConfigField::SharedIdleStrategyInitArgs => "shared_idle_strategy_init_args"@,
        }
    }

    /// The place of the field in the table, counted from zero.
    pub open spec fn position(self) -> nat {
        match self {
            ConfigField::Dir => 0,
            ConfigField::DirWarnIfExists => 1,
            ConfigField::ThreadingMode => 2,
            ConfigField::DirDeleteOnStart => 3,
            ConfigField::DirDeleteOnShutdown => 4,
            ConfigField::ToConductorBufferLength => 5,
            ConfigField::ToClientsBufferLength => 6,
            ConfigField::CountersBufferLength => 7,
            ConfigField::ErrorBufferLength => 8,
            ConfigField::ClientLivenessTimeoutNs => 9,
            ConfigField::TermBufferLength => 10,
            ConfigField::IpcTermBufferLength => 11,
            ConfigField::TermBufferSparseFile => 12,
            ConfigField::PerformStorageChecks => 13,
            ConfigField::LowFileStoreWarningThreshold => 14,
            ConfigField::SpiesSimulateConnection => 15,
            ConfigField::FilePageSize => 16,
            ConfigField::MtuLength => 17,
            ConfigField::IpcMtuLength => 18,
            ConfigField::IpcPublicationTermWindowLength => 19,
            ConfigField::PublicationTermWindowLength => 20,
            ConfigField::PublicationLingerTimeoutNs => 21,
            ConfigField::SocketSoRcvbuf => 22,
            ConfigField::SocketSoSndbuf => 23,
            ConfigField::SocketMulticastTtl => 24,
            ConfigField::SendToStatusPollRatio => 25,
            ConfigField::RcvStatusMessageTimeoutNs => 26,
            ConfigField::MulticastFlowControlSupplier => 27,
            ConfigField::UnicastFlowControlSupplier => 28,
            ConfigField::ImageLivenessTimeoutNs => 29,
            ConfigField::RcvInitialWindowLength => 30,
            ConfigField::CongestionControlSupplier => 31,
            ConfigField::LossReportBufferLength => 32,
            ConfigField::PublicationUnblockTimeoutNs => 33,
            ConfigField::PublicationConnectionTimeoutNs => 34,
            ConfigField::TimerIntervalNs => 35,
            ConfigField::SenderIdleStrategy => 36,
            ConfigField::ConductorIdleStrategy => 37,
            ConfigField::ReceiverIdleStrategy => 38,
            ConfigField::SharedNetworkIdleStrategy => 39,
            ConfigField::SharedIdleStrategy => 40,
            ConfigField::SenderIdleStrategyInitArgs => 41,
            ConfigField::ConductorIdleStrategyInitArgs => 42,
            ConfigField::ReceiverIdleStrategyInitArgs => 43,
            ConfigField::SharedNetworkIdleStrategyInitArgs => 44,
            ConfigField::SharedIdleStrategyInitArgs => 45,
        }
    }

    /// The kind of value that the field holds.
    pub open spec fn kind_of_value(self) -> ValueKind {
        match self {
            ConfigField::Dir => ValueKind::Text,
            ConfigField::DirWarnIfExists => ValueKind::Flag,
            ConfigField::ThreadingMode => ValueKind::ThreadingMode,
            ConfigField::DirDeleteOnStart => ValueKind::Flag,
            ConfigField::DirDeleteOnShutdown => ValueKind::Flag,
            ConfigField::ToConductorBufferLength => ValueKind::Number,
            ConfigField::ToClientsBufferLength => ValueKind::Number,
            ConfigField::CountersBufferLength => ValueKind::Number,
            ConfigField::ErrorBufferLength => ValueKind::Number,
            ConfigField::ClientLivenessTimeoutNs => ValueKind::Number,
            ConfigField::TermBufferLength => ValueKind::Number,
            ConfigField::IpcTermBufferLength => ValueKind::Number,
            ConfigField::TermBufferSparseFile => ValueKind::Flag,
            ConfigField::PerformStorageChecks => ValueKind::Flag,
            ConfigField::LowFileStoreWarningThreshold => ValueKind::Number,
            ConfigField::SpiesSimulateConnection => ValueKind::Flag,
            ConfigField::FilePageSize => ValueKind::Number,
            ConfigField::MtuLength => ValueKind::Number,
            ConfigField::IpcMtuLength => ValueKind::Number,
            ConfigField::IpcPublicationTermWindowLength => ValueKind::Number,
            ConfigField::PublicationTermWindowLength => ValueKind::Number,
            ConfigField::PublicationLingerTimeoutNs => ValueKind::Number,
            ConfigField::SocketSoRcvbuf => ValueKind::Number,
            ConfigField::SocketSoSndbuf => ValueKind::Number,
            ConfigField::SocketMulticastTtl => ValueKind::Number,
            ConfigField::SendToStatusPollRatio => ValueKind::Number,
            ConfigField::RcvStatusMessageTimeoutNs => ValueKind::Number,
            ConfigField::MulticastFlowControlSupplier => ValueKind::Supplier,
            ConfigField::UnicastFlowControlSupplier => ValueKind::Supplier,
            ConfigField::ImageLivenessTimeoutNs => ValueKind::Number,
            ConfigField::RcvInitialWindowLength => ValueKind::Number,
            ConfigField::CongestionControlSupplier => ValueKind::Supplier,
            ConfigField::LossReportBufferLength => ValueKind::Number,
            ConfigField::PublicationUnblockTimeoutNs => ValueKind::Number,
            ConfigField::PublicationConnectionTimeoutNs => ValueKind::Number,
            ConfigField::TimerIntervalNs => ValueKind::Number,
            ConfigField::SenderIdleStrategy => ValueKind::Text,
            ConfigField::ConductorIdleStrategy => ValueKind::Text,
            ConfigField::ReceiverIdleStrategy => ValueKind::Text,
            ConfigField::SharedNetworkIdleStrategy => ValueKind::Text,
            ConfigField::SharedIdleStrategy => ValueKind::Text,
            ConfigField::SenderIdleStrategyInitArgs => ValueKind::OptionalText,
            ConfigField::ConductorIdleStrategyInitArgs => ValueKind::OptionalText,
            ConfigField::ReceiverIdleStrategyInitArgs => ValueKind::OptionalText,
            ConfigField::SharedNetworkIdleStrategyInitArgs => ValueKind::OptionalText,
            ConfigField::SharedIdleStrategyInitArgs => ValueKind::OptionalText,
        }
    }

    /// The kind of value that the field holds.
    pub fn kind(self) -> (kind: ValueKind)
        ensures
            kind == self.kind_of_value(),
    {
        match self {
            ConfigField::Dir => ValueKind::Text,
            ConfigField::DirWarnIfExists => ValueKind::Flag,
            ConfigField::ThreadingMode => ValueKind::ThreadingMode,
            ConfigField::DirDeleteOnStart => ValueKind::Flag,
            ConfigField::DirDeleteOnShutdown => ValueKind::Flag,
            ConfigField::ToConductorBufferLength => ValueKind::Number,
            ConfigField::ToClientsBufferLength => ValueKind::Number,
            ConfigField::CountersBufferLength => ValueKind::Number,
            ConfigField::ErrorBufferLength => ValueKind::Number,
            ConfigField::ClientLivenessTimeoutNs => ValueKind::Number,
            ConfigField::TermBufferLength => ValueKind::Number,
            ConfigField::IpcTermBufferLength => ValueKind::Number,
            ConfigField::TermBufferSparseFile => ValueKind::Flag,
            ConfigField::PerformStorageChecks => ValueKind::Flag,
            ConfigField::LowFileStoreWarningThreshold => ValueKind::Number,
            ConfigField::SpiesSimulateConnection => ValueKind::Flag,
            ConfigField::FilePageSize => ValueKind::Number,
            ConfigField::MtuLength => ValueKind::Number,
            ConfigField::IpcMtuLength => ValueKind::Number,
            ConfigField::IpcPublicationTermWindowLength => ValueKind::Number,
            ConfigField::PublicationTermWindowLength => ValueKind::Number,
            ConfigField::PublicationLingerTimeoutNs => ValueKind::Number,
            ConfigField::SocketSoRcvbuf => ValueKind::Number,
            ConfigField::SocketSoSndbuf => ValueKind::Number,
            ConfigField::SocketMulticastTtl => ValueKind::Number,
            ConfigField::SendToStatusPollRatio => ValueKind::Number,
            ConfigField::RcvStatusMessageTimeoutNs => ValueKind::Number,
            ConfigField::MulticastFlowControlSupplier => ValueKind::Supplier,
            ConfigField::UnicastFlowControlSupplier => ValueKind::Supplier,
            ConfigField::ImageLivenessTimeoutNs => ValueKind::Number,
            ConfigField::RcvInitialWindowLength => ValueKind::Number,
            ConfigField::CongestionControlSupplier => ValueKind::Supplier,
            ConfigField::LossReportBufferLength => ValueKind::Number,
            ConfigField::PublicationUnblockTimeoutNs => ValueKind::Number,
            ConfigField::PublicationConnectionTimeoutNs => ValueKind::Number,
            ConfigField::TimerIntervalNs => ValueKind::Number,
            ConfigField::SenderIdleStrategy => ValueKind::Text,
            ConfigField::ConductorIdleStrategy => ValueKind::Text,
            ConfigField::ReceiverIdleStrategy => ValueKind::Text,
            ConfigField::SharedNetworkIdleStrategy => ValueKind::Text,
            ConfigField::SharedIdleStrategy => ValueKind::Text,
            ConfigField::SenderIdleStrategyInitArgs => ValueKind::OptionalText,
            ConfigField::ConductorIdleStrategyInitArgs => ValueKind::OptionalText,
            ConfigField::ReceiverIdleStrategyInitArgs => ValueKind::OptionalText,
            ConfigField::SharedNetworkIdleStrategyInitArgs => ValueKind::OptionalText,
            ConfigField::SharedIdleStrategyInitArgs => ValueKind::OptionalText,
        }
    }

    /// The name under which the field is reported.
    pub fn name(self) -> (name: &'static str)
        ensures
            name@ == self.name_text(),
    {
        match self {
            ConfigField::Dir => "dir",
            ConfigField::DirWarnIfExists => "dir_warn_if_exists",
            ConfigField::ThreadingMode => "threading_mode",
            ConfigField::DirDeleteOnStart => "dir_delete_on_start",
            ConfigField::DirDeleteOnShutdown => "dir_delete_on_shutdown",
            ConfigField::ToConductorBufferLength => "to_conductor_buffer_length",
            ConfigField::ToClientsBufferLength => "to_clients_buffer_length",
            ConfigField::CountersBufferLength => "counters_buffer_length",
            ConfigField::ErrorBufferLength => "error_buffer_length",
            ConfigField::ClientLivenessTimeoutNs => "client_liveness_timeout_ns",
            ConfigField::TermBufferLength => "term_buffer_length",
            ConfigField::IpcTermBufferLength => "ipc_term_buffer_length",
            ConfigField::TermBufferSparseFile => "term_buffer_sparse_file",
            ConfigField::PerformStorageChecks => "perform_storage_checks",
            ConfigField::LowFileStoreWarningThreshold => "low_file_store_warning_threshold",
            ConfigField::SpiesSimulateConnection => "spies_simulate_connection",
            ConfigField::FilePageSize => "file_page_size",
            ConfigField::MtuLength => "mtu_length",
            ConfigField::IpcMtuLength => "ipc_mtu_length",
            ConfigField::IpcPublicationTermWindowLength => "ipc_publication_term_window_length",
            ConfigField::PublicationTermWindowLength => "publication_term_window_length",
            ConfigField::PublicationLingerTimeoutNs => "publication_linger_timeout_ns",
            ConfigField::SocketSoRcvbuf => "socket_so_rcvbuf",
            ConfigField::SocketSoSndbuf => "socket_so_sndbuf",
            ConfigField::SocketMulticastTtl => "socket_multicast_ttl",
            ConfigField::SendToStatusPollRatio => "send_to_status_poll_ratio",
            ConfigField::RcvStatusMessageTimeoutNs => "rcv_status_message_timeout_ns",
            ConfigField::MulticastFlowControlSupplier => "multicast_flowcontrol_supplier",
            ConfigField::UnicastFlowControlSupplier => "unicast_flowcontrol_supplier",
            ConfigField::ImageLivenessTimeoutNs => "image_liveness_timeout_ns",
            ConfigField::RcvInitialWindowLength => "rcv_initial_window_length",
            ConfigField::CongestionControlSupplier => "congestioncontrol_supplier",
            ConfigField::LossReportBufferLength => "loss_report_buffer_length",
            ConfigField::PublicationUnblockTimeoutNs => "publication_unblock_timeout_ns",
            ConfigField::PublicationConnectionTimeoutNs => "publication_connection_timeout_ns",
            ConfigField::TimerIntervalNs => "timer_interval_ns",
            ConfigField::SenderIdleStrategy => "sender_idle_strategy",
            ConfigField::ConductorIdleStrategy => "conductor_idle_strategy",
            ConfigField::ReceiverIdleStrategy => "receiver_idle_strategy",
            ConfigField::SharedNetworkIdleStrategy => "sharednetwork_idle_strategy",
            ConfigField::SharedIdleStrategy => "shared_idle_strategy",
            ConfigField::SenderIdleStrategyInitArgs => "sender_idle_strategy_init_args",
            ConfigField::ConductorIdleStrategyInitArgs => "conductor_idle_strategy_init_args",
            ConfigField::ReceiverIdleStrategyInitArgs => "receiver_idle_strategy_init_args",
            ConfigField::SharedNetworkIdleStrategyInitArgs => "sharednetwork_idle_strategy_init_args",
            ConfigField::SharedIdleStrategyInitArgs => "shared_idle_strategy_init_args",
        }
    }

    /// The whole table, in the order of the report.
    pub fn table() -> (fields: Vec<ConfigField>)
        ensures
            fields@ == field_table(),
    {
        let fields = vec![
            ConfigField::Dir,
            ConfigField::DirWarnIfExists,
            ConfigField::ThreadingMode,
            ConfigField::DirDeleteOnStart,
            ConfigField::DirDeleteOnShutdown,
            ConfigField::ToConductorBufferLength,
            ConfigField::ToClientsBufferLength,
            ConfigField::CountersBufferLength,
            ConfigField::ErrorBufferLength,
            ConfigField::ClientLivenessTimeoutNs,
            ConfigField::TermBufferLength,
            ConfigField::IpcTermBufferLength,
            ConfigField::TermBufferSparseFile,
            ConfigField::PerformStorageChecks,
            ConfigField::LowFileStoreWarningThreshold,
            ConfigField::SpiesSimulateConnection,
            ConfigField::FilePageSize,
            ConfigField::MtuLength,
            ConfigField::IpcMtuLength,
            ConfigField::IpcPublicationTermWindowLength,
            ConfigField::PublicationTermWindowLength,
            ConfigField::PublicationLingerTimeoutNs,
            ConfigField::SocketSoRcvbuf,
            ConfigField::SocketSoSndbuf,
            ConfigField::SocketMulticastTtl,
            ConfigField::SendToStatusPollRatio,
            ConfigField::RcvStatusMessageTimeoutNs,
            ConfigField::MulticastFlowControlSupplier,
            ConfigField::UnicastFlowControlSupplier,
            ConfigField::ImageLivenessTimeoutNs,
            ConfigField::RcvInitialWindowLength,
            ConfigField::CongestionControlSupplier,
            ConfigField::LossReportBufferLength,
            ConfigField::PublicationUnblockTimeoutNs,
            ConfigField::PublicationConnectionTimeoutNs,
            ConfigField::TimerIntervalNs,
            ConfigField::SenderIdleStrategy,
            ConfigField::ConductorIdleStrategy,
            ConfigField::ReceiverIdleStrategy,
            ConfigField::SharedNetworkIdleStrategy,
            ConfigField::SharedIdleStrategy,
            ConfigField::SenderIdleStrategyInitArgs,
            ConfigField::ConductorIdleStrategyInitArgs,
            ConfigField::ReceiverIdleStrategyInitArgs,
            ConfigField::SharedNetworkIdleStrategyInitArgs,
            ConfigField::SharedIdleStrategyInitArgs,
        ];
        assert(fields@ =~= field_table());
        fields
    }
}

/// Every field stands in the table, once, at its own position.
pub proof fn lemma_table_is_complete(field: ConfigField)
    ensures
        field_table().len() == FIELD_COUNT,
        field.position() < FIELD_COUNT,
        field_table()[field.position() as int] == field,
        forall|i: int|
            0 <= i < FIELD_COUNT && #[trigger] field_table()[i] == field ==> i == field.position(),
{
}

} // verus!
