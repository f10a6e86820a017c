use tezedge::node_config::LightNodeConfiguration;

fn empty_config() -> LightNodeConfiguration {
    LightNodeConfiguration {
        tezos_data_dir: None,
        identity_file: None,
        identity_expected_pow: None,
        bootstrap_db_path: None,
        db_cfg_max_threads: None,
        db_cfg_max_open_files: None,
        bootstrap_lookup_address: None,
        disable_bootstrap_lookup: None,
        log_file: None,
        log_format: None,
        log_level: None,
        ocaml_log_enabled: None,
        network: None,
        p2p_port: None,
        rpc_port: None,
        websocket_address: None,
        monitor_port: None,
        peers: None,
        peer_thresh_low: None,
        peer_thresh_high: None,
        protocol_runner: None,
        ffi_calls_gc_threshold: None,
        ffi_pool_max_connections: None,
        ffi_pool_connection_timeout_in_secs: None,
        ffi_pool_max_lifetime_in_secs: None,
        ffi_pool_idle_timeout_in_secs: None,
        store_context_actions: None,
        tokio_threads: None,
        enable_testchain: None,
        sandbox_patch_context_json_file: None,
        disable_mempool: None,
        private_node: None,
        config_file: None,
    }
}

#[test]
fn empty_configuration_yields_no_args() {
    assert!(empty_config().construct_args().is_empty());
}

#[test]
fn set_fields_become_flag_value_pairs_in_order() {
    let mut cfg = empty_config();
    cfg.tezos_data_dir = Some("/var/tezos".to_string());
    cfg.network = Some("sandbox".to_string());
    cfg.p2p_port = Some(9732);
    cfg.peer_thresh_low = Some(3);
    cfg.peer_thresh_high = Some(10);
    let args = cfg.construct_args();
    assert_eq!(
        args,
        vec![
            "--tezos-data-dir".to_string(),
            "/var/tezos".to_string(),
            "--network".to_string(),
            "sandbox".to_string(),
            "--p2p-port".to_string(),
            "9732".to_string(),
            "--peer-thresh-low".to_string(),
            "3".to_string(),
            "--peer-thresh-high".to_string(),
            "10".to_string(),
        ]
    );
}

#[test]
fn numbers_booleans_and_switch_render_exactly() {
    let mut cfg = empty_config();
    cfg.identity_expected_pow = Some(26);
    cfg.db_cfg_max_threads = Some(-4);
    cfg.disable_bootstrap_lookup = Some(true);
    cfg.ocaml_log_enabled = Some(false);
    cfg.enable_testchain = Some(true);
    cfg.tokio_threads = Some(0);
    let args = cfg.construct_args();
    assert_eq!(
        args,
        vec![
            "--identity-expected-pow".to_string(),
            "26".to_string(),
            "--db-cfg-max-threads".to_string(),
            "-4".to_string(),
            "--disable-bootstrap-lookup".to_string(),
            "--ocaml-log-enabled".to_string(),
            "false".to_string(),
            "--tokio-threads".to_string(),
            "0".to_string(),
            "--enable-testchain".to_string(),
            "true".to_string(),
        ]
    );
}

#[test]
fn switch_set_to_false_still_emits_flag() {
    // The bootstrap-lookup switch goes by presence, not by its value.
    let mut cfg = empty_config();
    cfg.disable_bootstrap_lookup = Some(false);
    assert_eq!(cfg.construct_args(), vec!["--disable-bootstrap-lookup".to_string()]);
}

#[test]
fn large_numbers_render_all_digits() {
    let mut cfg = empty_config();
    cfg.ffi_calls_gc_threshold = Some(1048576);
    cfg.db_cfg_max_open_files = Some(2147483647);
    let args = cfg.construct_args();
    assert_eq!(
        args,
        vec![
            "--db-cfg-max-open-files".to_string(),
            "2147483647".to_string(),
            "--ffi-calls-gc-threshold".to_string(),
            "1048576".to_string(),
        ]
    );
}
