use aeron_rs_media_driver::config::{
    render_config, render_line, render_lines, snapshot, threading_mode_to_str,
    widest_name_length, wrap_some, ConfigEntry, ConfigValue,
};
use aeron_rs_media_driver::fields::{ConfigField, ValueKind, FIELD_COUNT};

fn sample(kind: ValueKind, seed: u64) -> ConfigValue {
    match kind {
        ValueKind::Text => ConfigValue::Text(format!("text{}", seed)),
        ValueKind::OptionalText => ConfigValue::OptionalText(None),
        ValueKind::Flag => ConfigValue::Flag(seed % 2 == 0),
        ValueKind::Number => ConfigValue::Number(seed),
        ValueKind::ThreadingMode => ConfigValue::ThreadingMode(2),
        ValueKind::Supplier => ConfigValue::Supplier(Some(0x40)),
    }
}

fn table_values() -> Vec<ConfigValue> {
    ConfigField::table()
        .into_iter()
        .enumerate()
        .map(|(i, field)| sample(field.kind(), i as u64))
        .collect()
}

#[test]
fn snapshot_pairs_the_table_with_the_values() {
    let values = table_values();
    let entries = snapshot(values.clone()).expect("the values fit the table");
    let table = ConfigField::table();
    assert_eq!(entries.len(), 46);
    for i in 0..46 {
        assert_eq!(entries[i].field, table[i]);
        assert_eq!(entries[i].value, values[i]);
    }
    assert_eq!(entries[0].field.name(), "dir");
    assert_eq!(entries[17].field.name(), "mtu_length");
    assert_eq!(entries[17].value, ConfigValue::Number(17));
    assert_eq!(entries[45].field.name(), "shared_idle_strategy_init_args");
    let lines = render_lines(&entries);
    assert_eq!(lines[0], "dir                                    : \"text0\"");
    assert_eq!(lines[2], "threading_mode                         : SHARED");
    assert_eq!(lines[17], "mtu_length                             : 17");
    assert_eq!(lines[45], "shared_idle_strategy_init_args         : None");
}

#[test]
fn snapshot_needs_one_value_for_every_field() {
    assert_eq!(snapshot(Vec::new()), None);
    let mut short = table_values();
    short.pop();
    assert_eq!(snapshot(short), None);
    let mut long = table_values();
    long.push(ConfigValue::Flag(true));
    assert_eq!(snapshot(long), None);
}

#[test]
fn snapshot_needs_every_value_to_be_of_its_fields_kind() {
    let mut first = table_values();
    first[0] = ConfigValue::Number(1);
    assert_eq!(snapshot(first), None);
    let mut last = table_values();
    last[45] = ConfigValue::Text(String::from("args"));
    assert_eq!(snapshot(last), None);
    let mut swapped = table_values();
    swapped.swap(1, 2);
    assert_eq!(snapshot(swapped), None);
}

#[test]
fn fields_hold_values_of_their_kind() {
    assert_eq!(ConfigField::Dir.kind(), ValueKind::Text);
    assert_eq!(ConfigField::DirWarnIfExists.kind(), ValueKind::Flag);
    assert_eq!(ConfigField::ThreadingMode.kind(), ValueKind::ThreadingMode);
    assert_eq!(ConfigField::MtuLength.kind(), ValueKind::Number);
    assert_eq!(ConfigField::SocketMulticastTtl.kind(), ValueKind::Number);
    assert_eq!(ConfigField::CongestionControlSupplier.kind(), ValueKind::Supplier);
    assert_eq!(ConfigField::SharedIdleStrategy.kind(), ValueKind::Text);
    assert_eq!(ConfigField::SharedIdleStrategyInitArgs.kind(), ValueKind::OptionalText);
    assert_eq!(ConfigValue::Text(String::new()).kind(), ValueKind::Text);
    assert_eq!(ConfigValue::OptionalText(None).kind(), ValueKind::OptionalText);
    assert_eq!(ConfigValue::Flag(false).kind(), ValueKind::Flag);
    assert_eq!(ConfigValue::Number(0).kind(), ValueKind::Number);
    assert_eq!(ConfigValue::ThreadingMode(0).kind(), ValueKind::ThreadingMode);
    assert_eq!(ConfigValue::Supplier(None).kind(), ValueKind::Supplier);
    let table = ConfigField::table();
    let numbers = table.iter().filter(|field| field.kind() == ValueKind::Number).count();
    assert_eq!(numbers, 25);
}

fn entry(field: ConfigField, value: ConfigValue) -> ConfigEntry {
    ConfigEntry { field, value }
}

fn dir_and_mtu() -> Vec<ConfigEntry> {
    vec![
        entry(ConfigField::Dir, ConfigValue::Text(String::from("/tmp/aeron"))),
        entry(ConfigField::MtuLength, ConfigValue::Number(1408)),
    ]
}

#[test]
fn snapshot_of_dir_and_mtu_length_has_two_aligned_lines() {
    let lines = render_lines(&dir_and_mtu());
    assert_eq!(lines.len(), 2);
    assert_eq!(lines[0], "dir         : \"/tmp/aeron\"");
    assert_eq!(lines[1], "mtu_length  : 1408");
    assert_eq!(lines[0].find(':'), Some(12));
    assert_eq!(lines[1].find(':'), Some(12));
}

#[test]
fn report_ends_with_a_blank_line() {
    assert_eq!(
        render_config(&dir_and_mtu()),
        "dir         : \"/tmp/aeron\"\nmtu_length  : 1408\n\n"
    );
}

#[test]
fn report_of_no_entries_is_the_blank_line() {
    let none: Vec<ConfigEntry> = Vec::new();
    assert_eq!(render_lines(&none).len(), 0);
    assert_eq!(render_config(&none), "\n");
    assert_eq!(widest_name_length(&none), 0);
}

#[test]
fn report_of_one_entry_pads_its_name_by_two() {
    let entries = vec![entry(ConfigField::Dir, ConfigValue::Flag(true))];
    assert_eq!(render_config(&entries), "dir  : true\n\n");
}

#[test]
fn widest_name_is_the_longest_of_the_entries() {
    assert_eq!(widest_name_length(&dir_and_mtu()), 10);
    let entries = vec![
        entry(ConfigField::SharedNetworkIdleStrategyInitArgs, ConfigValue::OptionalText(None)),
        entry(ConfigField::Dir, ConfigValue::Flag(false)),
    ];
    assert_eq!(widest_name_length(&entries), 37);
}

#[test]
fn report_keeps_the_order_of_the_entries() {
    let entries = vec![
        entry(ConfigField::MtuLength, ConfigValue::Number(1408)),
        entry(ConfigField::Dir, ConfigValue::Text(String::from("/dev/shm/aeron"))),
        entry(ConfigField::ThreadingMode, ConfigValue::ThreadingMode(0)),
    ];
    assert_eq!(
        render_config(&entries),
        "mtu_length      : 1408\ndir             : \"/dev/shm/aeron\"\nthreading_mode  : DEDICATED\n\n"
    );
}

#[test]
fn line_is_name_padding_colon_space_value() {
    assert_eq!(render_line("dir", "x", 3), "dir  : x");
    assert_eq!(render_line("dir", "x", 10), "dir         : x");
    assert_eq!(render_line("", "", 0), "  : ");
}

#[test]
fn line_does_not_cut_a_name_that_is_wider_than_the_column() {
    assert_eq!(render_line("mtu_length", "1408", 9), "mtu_length : 1408");
    assert_eq!(render_line("mtu_length", "1408", 8), "mtu_length: 1408");
    assert_eq!(render_line("mtu_length", "1408", 0), "mtu_length: 1408");
}

#[test]
fn text_is_shown_between_quotes() {
    assert_eq!(ConfigValue::Text(String::from("/tmp/aeron")).format(), "\"/tmp/aeron\"");
    assert_eq!(ConfigValue::Text(String::new()).format(), "\"\"");
    assert_eq!(ConfigValue::Text(String::from("a\"b\\c\n")).format(), "\"a\\\"b\\\\c\\n\"");
}

#[test]
fn optional_text_is_shown_as_some_or_none() {
    assert_eq!(ConfigValue::OptionalText(None).format(), "None");
    assert_eq!(
        ConfigValue::OptionalText(Some(String::from("1,2"))).format(),
        "Some(\"1,2\")"
    );
}

#[test]
fn flags_and_numbers_are_shown_plainly() {
    assert_eq!(ConfigValue::Flag(true).format(), "true");
    assert_eq!(ConfigValue::Flag(false).format(), "false");
    assert_eq!(ConfigValue::Number(0).format(), "0");
    assert_eq!(ConfigValue::Number(16_777_216).format(), "16777216");
    assert_eq!(ConfigValue::Number(u64::MAX).format(), "18446744073709551615");
}

#[test]
fn suppliers_are_shown_by_address() {
    assert_eq!(ConfigValue::Supplier(None).format(), "None");
    assert_eq!(ConfigValue::Supplier(Some(0)).format(), "Some(0x0)");
    assert_eq!(ConfigValue::Supplier(Some(0x55d0_1a2b)).format(), "Some(0x55d01a2b)");
}

#[test]
fn threading_modes_are_named() {
    assert_eq!(threading_mode_to_str(0), "DEDICATED");
    assert_eq!(threading_mode_to_str(1), "SHARED_NETWORK");
    assert_eq!(threading_mode_to_str(2), "SHARED");
    assert_eq!(threading_mode_to_str(3), "INVOKER");
    assert_eq!(threading_mode_to_str(4), "UNKNOWN");
    assert_eq!(threading_mode_to_str(u32::MAX), "UNKNOWN");
    assert_eq!(ConfigValue::ThreadingMode(1).format(), "SHARED_NETWORK");
    assert_eq!(ConfigValue::ThreadingMode(9).format(), "UNKNOWN");
}

#[test]
fn wrap_some_surrounds_the_text() {
    assert_eq!(wrap_some("x"), "Some(x)");
    assert_eq!(wrap_some(""), "Some()");
}

#[test]
fn table_holds_every_field_once_and_in_order() {
    let expected = [
        "dir",
        "dir_warn_if_exists",
        "threading_mode",
        "dir_delete_on_start",
        "dir_delete_on_shutdown",
        "to_conductor_buffer_length",
        "to_clients_buffer_length",
        "counters_buffer_length",
        "error_buffer_length",
        "client_liveness_timeout_ns",
        "term_buffer_length",
        "ipc_term_buffer_length",
        "term_buffer_sparse_file",
        "perform_storage_checks",
        "low_file_store_warning_threshold",
        "spies_simulate_connection",
        "file_page_size",
        "mtu_length",
        "ipc_mtu_length",
        "ipc_publication_term_window_length",
        "publication_term_window_length",
        "publication_linger_timeout_ns",
        "socket_so_rcvbuf",
        "socket_so_sndbuf",
        "socket_multicast_ttl",
        "send_to_status_poll_ratio",
        "rcv_status_message_timeout_ns",
        "multicast_flowcontrol_supplier",
        "unicast_flowcontrol_supplier",
        "image_liveness_timeout_ns",
        "rcv_initial_window_length",
        "congestioncontrol_supplier",
        "loss_report_buffer_length",
        "publication_unblock_timeout_ns",
        "publication_connection_timeout_ns",
        "timer_interval_ns",
        "sender_idle_strategy",
        "conductor_idle_strategy",
        "receiver_idle_strategy",
        "sharednetwork_idle_strategy",
        "shared_idle_strategy",
        "sender_idle_strategy_init_args",
        "conductor_idle_strategy_init_args",
        "receiver_idle_strategy_init_args",
        "sharednetwork_idle_strategy_init_args",
        "shared_idle_strategy_init_args",
    ];
    let table = ConfigField::table();
    assert_eq!(table.len(), FIELD_COUNT);
    assert_eq!(table.len(), expected.len());
    for (field, name) in table.iter().zip(expected.iter()) {
        assert_eq!(field.name(), *name);
    }
    for (i, field) in table.iter().enumerate() {
        for other in table.iter().skip(i + 1) {
            assert_ne!(field, other);
        }
    }
}

#[test]
fn report_of_the_whole_table_has_one_width() {
    let entries: Vec<ConfigEntry> = ConfigField::table()
        .into_iter()
        .map(|field| entry(field, ConfigValue::Number(1)))
        .collect();
    let lines = render_lines(&entries);
    assert_eq!(lines.len(), 46);
    for line in lines.iter() {
        assert_eq!(line.find(':'), Some(39));
        assert!(line.ends_with(": 1"));
    }
    assert_eq!(lines[0], "dir                                    : 1");
    assert_eq!(lines[44], "sharednetwork_idle_strategy_init_args  : 1");
}
