//! Configuration of a node process as received over the management RPC, and
//! the rule that turns it into the exact command-line argument list the node
//! binary is launched with: one flag/value pair per set field, in a fixed
//! order, with numbers and booleans rendered in their usual decimal and
//! `true`/`false` forms.

use vstd::prelude::*;
use vstd::string::StringExecFns;

verus! {

/// The character of one decimal digit.
pub open spec fn digit_char(d: int) -> char {
    if d == 0 {
        '0'
    } else if d == 1 {
        '1'
    } else if d == 2 {
        '2'
    } else if d == 3 {
        '3'
    } else if d == 4 {
        '4'
    } else if d == 5 {
        '5'
    } else if d == 6 {
        '6'
    } else if d == 7 {
        '7'
    } else if d == 8 {
        '8'
    } else {
        '9'
    }
}

/// Decimal rendering of a natural number, without leading zeros.
pub open spec fn dec_rep(n: nat) -> Seq<char>
    decreases n,
{
    if n < 10 {
        seq![digit_char(n as int)]
    } else {
        dec_rep((n / 10) as nat).push(digit_char((n % 10) as int))
    }
}

/// Decimal rendering of an integer: a minus sign before the magnitude.
pub open spec fn dec_rep_signed(n: int) -> Seq<char> {
    if n < 0 {
        seq!['-'] + dec_rep((-n) as nat)
    } else {
        dec_rep(n as nat)
    }
}

/// The usual rendering of a boolean.
pub open spec fn bool_rep(b: bool) -> Seq<char> {
    if b {
        "true"@
    } else {
        "false"@
    }
}

/// One decimal digit as a string.
fn digit_str(d: u64) -> (r: String)
    requires
        d < 10,
    ensures
        r@ == seq![digit_char(d as int)],
{
    let r = match d {
        0 => "0",
        1 => "1",
        2 => "2",
        3 => "3",
        4 => "4",
        5 => "5",
        6 => "6",
        7 => "7",
        8 => "8",
        _ => "9",
    };
    proof {
        reveal_strlit("0");
        reveal_strlit("1");
        reveal_strlit("2");
        reveal_strlit("3");
        reveal_strlit("4");
        reveal_strlit("5");
        reveal_strlit("6");
        reveal_strlit("7");
        reveal_strlit("8");
        reveal_strlit("9");
        assert(r@ =~= seq![digit_char(d as int)]);
    }
    r.to_owned()
}

/// Decimal rendering of a number, digit by digit.
fn u64_to_dec(n: u64) -> (r: String)
    ensures
        r@ == dec_rep(n as nat),
    decreases n,
{
    if n < 10 {
        digit_str(n)
    } else {
        proof {
            assert(n / 10 < n) by (nonlinear_arith)
                requires
                    n >= 10,
            ;
        }
        let mut s = u64_to_dec(n / 10);
        let d = digit_str(n % 10);
        s.append(d.as_str());
        proof {
            assert(dec_rep((n / 10) as nat) + seq![digit_char((n % 10) as int)] =~= dec_rep(
                n as nat,
            ));
        }
        s
    }
}

/// Decimal rendering of a signed number.
fn i32_to_dec(n: i32) -> (r: String)
    ensures
        r@ == dec_rep_signed(n as int),
{
    if n < 0 {
        let magnitude: u64 = (-(n as i64)) as u64;
        let mut s = "-".to_owned();
        let d = u64_to_dec(magnitude);
        s.append(d.as_str());
        proof {
            reveal_strlit("-");
            assert("-"@ =~= seq!['-']);
        }
        s
    } else {
        u64_to_dec(n as u64)
    }
}

/// The usual rendering of a boolean.
fn bool_to_dec(b: bool) -> (r: String)
    ensures
        r@ == bool_rep(b),
{
    if b {
        "true".to_owned()
    } else {
        "false".to_owned()
    }
}

/// The views of an argument list: each argument as its character sequence.
pub open spec fn views(args: Seq<String>) -> Seq<Seq<char>> {
    args.map_values(|s: String| s@)
}

/// A flag with a string value, when the field is set.
pub open spec fn str_arg(flag: Seq<char>, v: Option<String>) -> Seq<Seq<char>> {
    match v {
        Some(s) => seq![flag, s@],
        None => Seq::empty(),
    }
}

/// A flag with a decimal value, when the field is set.
pub open spec fn usize_arg(flag: Seq<char>, v: Option<usize>) -> Seq<Seq<char>> {
    match v {
        Some(n) => seq![flag, dec_rep(n as nat)],
        None => Seq::empty(),
    }
}

/// A flag with a decimal value, when the field is set.
pub open spec fn u16_arg(flag: Seq<char>, v: Option<u16>) -> Seq<Seq<char>> {
    match v {
        Some(n) => seq![flag, dec_rep(n as nat)],
        None => Seq::empty(),
    }
}

/// A flag with a signed decimal value, when the field is set.
pub open spec fn i32_arg(flag: Seq<char>, v: Option<i32>) -> Seq<Seq<char>> {
    match v {
        Some(n) => seq![flag, dec_rep_signed(n as int)],
        None => Seq::empty(),
    }
}

/// A flag with a `true`/`false` value, when the field is set.
pub open spec fn bool_arg(flag: Seq<char>, v: Option<bool>) -> Seq<Seq<char>> {
    match v {
        Some(b) => seq![flag, bool_rep(b)],
        None => Seq::empty(),
    }
}

/// A bare switch: the flag alone whenever the field is set at all.
pub open spec fn switch_arg(flag: Seq<char>, v: Option<bool>) -> Seq<Seq<char>> {
    match v {
        Some(_) => seq![flag],
        None => Seq::empty(),
    }
}

fn push_str_arg(args: &mut Vec<String>, flag: &str, v: &Option<String>)
    ensures
        views(final(args)@) == views(old(args)@) + str_arg(flag@, *v),
{
    match v {
        Some(s) => {
            args.push(flag.to_owned());
            args.push(s.clone());
            proof {
                assert(views(args@) =~= views(old(args)@) + str_arg(flag@, *v));
            }
        },
        None => {
            proof {
                assert(views(args@) =~= views(old(args)@) + str_arg(flag@, *v));
            }
        },
    }
}

fn push_usize_arg(args: &mut Vec<String>, flag: &str, v: &Option<usize>)
    ensures
        views(final(args)@) == views(old(args)@) + usize_arg(flag@, *v),
{
    match v {
        Some(n) => {
            args.push(flag.to_owned());
            args.push(u64_to_dec(*n as u64));
            proof {
                assert(views(args@) =~= views(old(args)@) + usize_arg(flag@, *v));
            }
        },
        None => {
            proof {
                assert(views(args@) =~= views(old(args)@) + usize_arg(flag@, *v));
            }
        },
    }
}

fn push_u16_arg(args: &mut Vec<String>, flag: &str, v: &Option<u16>)
    ensures
        views(final(args)@) == views(old(args)@) + u16_arg(flag@, *v),
{
    match v {
        Some(n) => {
            args.push(flag.to_owned());
            args.push(u64_to_dec(*n as u64));
            proof {
                assert(views(args@) =~= views(old(args)@) + u16_arg(flag@, *v));
            }
        },
        None => {
            proof {
                assert(views(args@) =~= views(old(args)@) + u16_arg(flag@, *v));
            }
        },
    }
}

fn push_i32_arg(args: &mut Vec<String>, flag: &str, v: &Option<i32>)
    ensures
        views(final(args)@) == views(old(args)@) + i32_arg(flag@, *v),
{
    match v {
        Some(n) => {
            args.push(flag.to_owned());
            args.push(i32_to_dec(*n));
            proof {
                assert(views(args@) =~= views(old(args)@) + i32_arg(flag@, *v));
            }
        },
        None => {
            proof {
                assert(views(args@) =~= views(old(args)@) + i32_arg(flag@, *v));
            }
        },
    }
}

fn push_bool_arg(args: &mut Vec<String>, flag: &str, v: &Option<bool>)
    ensures
        views(final(args)@) == views(old(args)@) + bool_arg(flag@, *v),
{
    match v {
        Some(b) => {
            args.push(flag.to_owned());
            args.push(bool_to_dec(*b));
            proof {
                assert(views(args@) =~= views(old(args)@) + bool_arg(flag@, *v));
            }
        },
        None => {
            proof {
                assert(views(args@) =~= views(old(args)@) + bool_arg(flag@, *v));
            }
        },
    }
}

fn push_switch_arg(args: &mut Vec<String>, flag: &str, v: &Option<bool>)
    ensures
        views(final(args)@) == views(old(args)@) + switch_arg(flag@, *v),
{
    match v {
        Some(_) => {
            args.push(flag.to_owned());
            proof {
                assert(views(args@) =~= views(old(args)@) + switch_arg(flag@, *v));
            }
        },
        None => {
            proof {
                assert(views(args@) =~= views(old(args)@) + switch_arg(flag@, *v));
            }
        },
    }
}

/// Configuration of a light-node process. Every field is optional; only set
/// fields appear on the command line.
#[derive(Clone, Debug)]
pub struct LightNodeConfiguration {
    pub tezos_data_dir: Option<String>,
    pub identity_file: Option<String>,
    pub identity_expected_pow: Option<u16>,
    pub bootstrap_db_path: Option<String>,
    pub db_cfg_max_threads: Option<i32>,
    pub db_cfg_max_open_files: Option<i32>,
    pub bootstrap_lookup_address: Option<String>,
    pub disable_bootstrap_lookup: Option<bool>,
    pub log_file: Option<String>,
    pub log_format: Option<String>,
    pub log_level: Option<String>,
    pub ocaml_log_enabled: Option<bool>,
    pub network: Option<String>,
    pub p2p_port: Option<usize>,
    pub rpc_port: Option<usize>,
    pub websocket_address: Option<String>,
    pub monitor_port: Option<usize>,
    pub peers: Option<String>,
    pub peer_thresh_low: Option<usize>,
    pub peer_thresh_high: Option<usize>,
    pub protocol_runner: Option<String>,
    pub ffi_calls_gc_threshold: Option<usize>,
    pub ffi_pool_max_connections: Option<usize>,
    pub ffi_pool_connection_timeout_in_secs: Option<usize>,
    pub ffi_pool_max_lifetime_in_secs: Option<usize>,
    pub ffi_pool_idle_timeout_in_secs: Option<usize>,
    pub store_context_actions: Option<bool>,
    pub tokio_threads: Option<usize>,
    pub enable_testchain: Option<bool>,
    pub sandbox_patch_context_json_file: Option<String>,
    pub disable_mempool: Option<bool>,
    pub private_node: Option<bool>,
    pub config_file: Option<String>,
}

/// The full argument list a configuration denotes, field by field in the
/// fixed launch order.
pub open spec fn args_of(cfg: LightNodeConfiguration) -> Seq<Seq<char>> {
    Seq::<Seq<char>>::empty() + str_arg("--tezos-data-dir"@, cfg.tezos_data_dir)
        + str_arg("--identity-file"@, cfg.identity_file)
        + u16_arg("--identity-expected-pow"@, cfg.identity_expected_pow)
        + str_arg("--bootstrap-db-path"@, cfg.bootstrap_db_path)
        + i32_arg("--db-cfg-max-threads"@, cfg.db_cfg_max_threads)
        + i32_arg("--db-cfg-max-open-files"@, cfg.db_cfg_max_open_files)
        + str_arg("--bootstrap-lookup-address"@, cfg.bootstrap_lookup_address)
        + switch_arg("--disable-bootstrap-lookup"@, cfg.disable_bootstrap_lookup)
        + str_arg("--log-file"@, cfg.log_file)
        + str_arg("--log-format"@, cfg.log_format)
        + str_arg("--log-level"@, cfg.log_level)
        + bool_arg("--ocaml-log-enabled"@, cfg.ocaml_log_enabled)
        + str_arg("--network"@, cfg.network)
        + usize_arg("--p2p-port"@, cfg.p2p_port)
        + usize_arg("--rpc-port"@, cfg.rpc_port)
        + str_arg("--websocket-address"@, cfg.websocket_address)
        + usize_arg("--monitor-port"@, cfg.monitor_port)
        + str_arg("--peers"@, cfg.peers)
        + usize_arg("--peer-thresh-low"@, cfg.peer_thresh_low)
        + usize_arg("--peer-thresh-high"@, cfg.peer_thresh_high)
        + str_arg("--protocol-runner"@, cfg.protocol_runner)
        + usize_arg("--ffi-calls-gc-threshold"@, cfg.ffi_calls_gc_threshold)
        + usize_arg("--ffi-pool-max-connections"@, cfg.ffi_pool_max_connections)
        + usize_arg("--ffi-pool-connection-timeout-in-secs"@, cfg.ffi_pool_connection_timeout_in_secs)
        + usize_arg("--ffi-pool-max-lifetime-in-secs"@, cfg.ffi_pool_max_lifetime_in_secs)
        + usize_arg("--ffi-pool-idle-timeout-in-secs"@, cfg.ffi_pool_idle_timeout_in_secs)
        + bool_arg("--store-context-actions"@, cfg.store_context_actions)
        + usize_arg("--tokio-threads"@, cfg.tokio_threads)
        + bool_arg("--enable-testchain"@, cfg.enable_testchain)
        + str_arg("--sandbox-patch-context-json-file"@, cfg.sandbox_patch_context_json_file)
        + bool_arg("--disable-mempool"@, cfg.disable_mempool)
        + bool_arg("--private-node"@, cfg.private_node)
        + str_arg("--config-file"@, cfg.config_file)
}

impl LightNodeConfiguration {
    /// Builds the argument vector the node binary is launched with: for each
    /// set field its flag, followed by the field's rendered value (the bare
    /// bootstrap-lookup switch carries none), in the fixed field order.
    pub fn construct_args(&self) -> (r: Vec<String>)
        ensures
            views(r@) == args_of(*self),
    {
        let mut args: Vec<String> = Vec::new();
        proof {
            assert(views(args@) =~= Seq::<Seq<char>>::empty());
        }
        push_str_arg(&mut args, "--tezos-data-dir", &self.tezos_data_dir);
        push_str_arg(&mut args, "--identity-file", &self.identity_file);
        push_u16_arg(&mut args, "--identity-expected-pow", &self.identity_expected_pow);
        push_str_arg(&mut args, "--bootstrap-db-path", &self.bootstrap_db_path);
        push_i32_arg(&mut args, "--db-cfg-max-threads", &self.db_cfg_max_threads);
        push_i32_arg(&mut args, "--db-cfg-max-open-files", &self.db_cfg_max_open_files);
        push_str_arg(&mut args, "--bootstrap-lookup-address", &self.bootstrap_lookup_address);
        push_switch_arg(&mut args, "--disable-bootstrap-lookup", &self.disable_bootstrap_lookup);
        push_str_arg(&mut args, "--log-file", &self.log_file);
        push_str_arg(&mut args, "--log-format", &self.log_format);
        push_str_arg(&mut args, "--log-level", &self.log_level);
        push_bool_arg(&mut args, "--ocaml-log-enabled", &self.ocaml_log_enabled);
        push_str_arg(&mut args, "--network", &self.network);
        push_usize_arg(&mut args, "--p2p-port", &self.p2p_port);
        push_usize_arg(&mut args, "--rpc-port", &self.rpc_port);
        push_str_arg(&mut args, "--websocket-address", &self.websocket_address);
        push_usize_arg(&mut args, "--monitor-port", &self.monitor_port);
        push_str_arg(&mut args, "--peers", &self.peers);
        push_usize_arg(&mut args, "--peer-thresh-low", &self.peer_thresh_low);
        push_usize_arg(&mut args, "--peer-thresh-high", &self.peer_thresh_high);
        push_str_arg(&mut args, "--protocol-runner", &self.protocol_runner);
        push_usize_arg(&mut args, "--ffi-calls-gc-threshold", &self.ffi_calls_gc_threshold);
        push_usize_arg(&mut args, "--ffi-pool-max-connections", &self.ffi_pool_max_connections);
        push_usize_arg(&mut args, "--ffi-pool-connection-timeout-in-secs", &self.ffi_pool_connection_timeout_in_secs);
        push_usize_arg(&mut args, "--ffi-pool-max-lifetime-in-secs", &self.ffi_pool_max_lifetime_in_secs);
        push_usize_arg(&mut args, "--ffi-pool-idle-timeout-in-secs", &self.ffi_pool_idle_timeout_in_secs);
        push_bool_arg(&mut args, "--store-context-actions", &self.store_context_actions);
        push_usize_arg(&mut args, "--tokio-threads", &self.tokio_threads);
        push_bool_arg(&mut args, "--enable-testchain", &self.enable_testchain);
        push_str_arg(&mut args, "--sandbox-patch-context-json-file", &self.sandbox_patch_context_json_file);
        push_bool_arg(&mut args, "--disable-mempool", &self.disable_mempool);
        push_bool_arg(&mut args, "--private-node", &self.private_node);
        push_str_arg(&mut args, "--config-file", &self.config_file);
        args
    }
}

} // verus!
