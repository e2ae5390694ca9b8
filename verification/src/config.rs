//! Media driver configuration: which settings a configuration asks for, in the
//! order they are applied, and the first name in it that is not understood.

use vstd::prelude::*;
use vstd::string::*;

use crate::driver::{
    idle_strategy_named, parse_idle_strategy, parse_threading_mode, threading_mode_named,
    unknown_idle_strategy_message, unknown_threading_mode_message, IdleStrategy, ThreadingMode,
};

verus! {

/// Media driver configuration as read from a configuration file: every entry is
/// optional, and the threading mode and idle strategies are given by name.
pub struct DriverConfig {
    pub dir: Option<String>,
    pub dir_delete_on_start: Option<bool>,
    pub dir_delete_on_shutdown: Option<bool>,
    pub threading_mode: Option<String>,
    pub conductor_idle_strategy: Option<String>,
    pub sender_idle_strategy: Option<String>,
    pub receiver_idle_strategy: Option<String>,
    pub term_buffer_length: Option<usize>,
    pub ipc_term_buffer_length: Option<usize>,
    pub mtu_length: Option<usize>,
    pub ipc_mtu_length: Option<usize>,
    pub socket_so_rcvbuf: Option<usize>,
    pub socket_so_sndbuf: Option<usize>,
    pub print_configuration: Option<bool>,
    pub conductor_cpu_affinity: Option<i32>,
    pub sender_cpu_affinity: Option<i32>,
    pub receiver_cpu_affinity: Option<i32>,
}

/// One setting to apply to the media driver.
#[derive(Debug, Clone, PartialEq, Eq)]
pub enum DriverSetting {
    Dir(String),
    DirDeleteOnStart(bool),
    DirDeleteOnShutdown(bool),
    Threading(ThreadingMode),
    ConductorIdle(IdleStrategy),
    SenderIdle(IdleStrategy),
    ReceiverIdle(IdleStrategy),
    TermBufferLength(usize),
    IpcTermBufferLength(usize),
    MtuLength(usize),
    IpcMtuLength(usize),
    SocketSoRcvbuf(usize),
    SocketSoSndbuf(usize),
    PrintConfiguration(bool),
    ConductorCpuAffinity(i32),
    SenderCpuAffinity(i32),
    ReceiverCpuAffinity(i32),
}

/// A driver setting with its directory as plain text.
pub enum SettingView {
    Dir(Seq<char>),
    DirDeleteOnStart(bool),
    DirDeleteOnShutdown(bool),
    Threading(ThreadingMode),
    ConductorIdle(IdleStrategy),
    SenderIdle(IdleStrategy),
    ReceiverIdle(IdleStrategy),
    TermBufferLength(usize),
    IpcTermBufferLength(usize),
    MtuLength(usize),
    IpcMtuLength(usize),
    SocketSoRcvbuf(usize),
    SocketSoSndbuf(usize),
    PrintConfiguration(bool),
    ConductorCpuAffinity(i32),
    SenderCpuAffinity(i32),
    ReceiverCpuAffinity(i32),
}

impl View for DriverSetting {
    type V = SettingView;

    open spec fn view(&self) -> SettingView {
        match *self {
            DriverSetting::Dir(d) => SettingView::Dir(d@),
            DriverSetting::DirDeleteOnStart(v) => SettingView::DirDeleteOnStart(v),
            DriverSetting::DirDeleteOnShutdown(v) => SettingView::DirDeleteOnShutdown(v),
            DriverSetting::Threading(v) => SettingView::Threading(v),
            DriverSetting::ConductorIdle(v) => SettingView::ConductorIdle(v),
            DriverSetting::SenderIdle(v) => SettingView::SenderIdle(v),
            DriverSetting::ReceiverIdle(v) => SettingView::ReceiverIdle(v),
            DriverSetting::TermBufferLength(v) => SettingView::TermBufferLength(v),
            DriverSetting::IpcTermBufferLength(v) => SettingView::IpcTermBufferLength(v),
            DriverSetting::MtuLength(v) => SettingView::MtuLength(v),
            DriverSetting::IpcMtuLength(v) => SettingView::IpcMtuLength(v),
            DriverSetting::SocketSoRcvbuf(v) => SettingView::SocketSoRcvbuf(v),
            DriverSetting::SocketSoSndbuf(v) => SettingView::SocketSoSndbuf(v),
            DriverSetting::PrintConfiguration(v) => SettingView::PrintConfiguration(v),
            DriverSetting::ConductorCpuAffinity(v) => SettingView::ConductorCpuAffinity(v),
            DriverSetting::SenderCpuAffinity(v) => SettingView::SenderCpuAffinity(v),
            DriverSetting::ReceiverCpuAffinity(v) => SettingView::ReceiverCpuAffinity(v),
        }
    }
}

/// One configuration entry, resolved: the setting it asks for, or the message
/// for a name that is not understood.
pub type StepView = Result<SettingView, Seq<char>>;

/// The view of a resolved configuration entry.
pub open spec fn step_view(step: Result<DriverSetting, String>) -> StepView {
    match step {
        Ok(s) => Ok(s@),
        Err(e) => Err(e@),
    }
}

/// A one-entry sequence when the entry is present, else the empty sequence.
pub open spec fn entry(present: bool, step: StepView) -> Seq<StepView> {
    if present {
        seq![step]
    } else {
        Seq::empty()
    }
}

/// The threading mode entry for a name.
pub open spec fn threading_step(name: Seq<char>) -> StepView {
    match threading_mode_named(name) {
        Some(mode) => Ok(SettingView::Threading(mode)),
        None => Err(unknown_threading_mode_message(name)),
    }
}

/// The idle strategy named, or the message for an unknown name.
pub open spec fn idle_lookup(name: Seq<char>) -> Result<IdleStrategy, Seq<char>> {
    match idle_strategy_named(name) {
        Some(strategy) => Ok(strategy),
        None => Err(unknown_idle_strategy_message(name)),
    }
}

/// The entries of the first part of a configuration: directory and threading.
pub open spec fn directory_steps(c: DriverConfig) -> Seq<StepView> {
    entry(c.dir is Some, Ok(SettingView::Dir(c.dir->0@)))
        + entry(c.dir_delete_on_start is Some, Ok(SettingView::DirDeleteOnStart(c.dir_delete_on_start->0)))
        + entry(c.dir_delete_on_shutdown is Some, Ok(SettingView::DirDeleteOnShutdown(c.dir_delete_on_shutdown->0)))
        + entry(c.threading_mode is Some, threading_step(c.threading_mode->0@))
}

/// The entries of the idle strategies, conductor then sender then receiver.
pub open spec fn idle_steps(c: DriverConfig) -> Seq<StepView> {
    entry(
        c.conductor_idle_strategy is Some,
        match idle_lookup(c.conductor_idle_strategy->0@) {
            Ok(s) => Ok(SettingView::ConductorIdle(s)),
            Err(m) => Err(m),
        },
    ) + entry(
        c.sender_idle_strategy is Some,
        match idle_lookup(c.sender_idle_strategy->0@) {
            Ok(s) => Ok(SettingView::SenderIdle(s)),
            Err(m) => Err(m),
        },
    ) + entry(
        c.receiver_idle_strategy is Some,
        match idle_lookup(c.receiver_idle_strategy->0@) {
            Ok(s) => Ok(SettingView::ReceiverIdle(s)),
            Err(m) => Err(m),
        },
    )
}

/// The entries of the buffer lengths.
pub open spec fn buffer_steps(c: DriverConfig) -> Seq<StepView> {
    entry(c.term_buffer_length is Some, Ok(SettingView::TermBufferLength(c.term_buffer_length->0)))
        + entry(c.ipc_term_buffer_length is Some, Ok(SettingView::IpcTermBufferLength(c.ipc_term_buffer_length->0)))
        + entry(c.mtu_length is Some, Ok(SettingView::MtuLength(c.mtu_length->0)))
        + entry(c.ipc_mtu_length is Some, Ok(SettingView::IpcMtuLength(c.ipc_mtu_length->0)))
        + entry(c.socket_so_rcvbuf is Some, Ok(SettingView::SocketSoRcvbuf(c.socket_so_rcvbuf->0)))
        + entry(c.socket_so_sndbuf is Some, Ok(SettingView::SocketSoSndbuf(c.socket_so_sndbuf->0)))
}

/// The entries of printing and CPU affinities.
pub open spec fn affinity_steps(c: DriverConfig) -> Seq<StepView> {
    entry(c.print_configuration is Some, Ok(SettingView::PrintConfiguration(c.print_configuration->0)))
        + entry(c.conductor_cpu_affinity is Some, Ok(SettingView::ConductorCpuAffinity(c.conductor_cpu_affinity->0)))
        + entry(c.sender_cpu_affinity is Some, Ok(SettingView::SenderCpuAffinity(c.sender_cpu_affinity->0)))
        + entry(c.receiver_cpu_affinity is Some, Ok(SettingView::ReceiverCpuAffinity(c.receiver_cpu_affinity->0)))
}

/// Every present entry of a configuration, resolved, in the order the media
/// driver applies them.
pub open spec fn config_steps(c: DriverConfig) -> Seq<StepView> {
    directory_steps(c) + idle_steps(c) + buffer_steps(c) + affinity_steps(c)
}

/// The settings before the first entry that is not understood, and that
/// entry's message, if there is one.
pub open spec fn until_error(steps: Seq<StepView>) -> (Seq<SettingView>, Option<Seq<char>>)
    decreases steps.len(),
{
    if steps.len() == 0 {
        (Seq::empty(), None)
    } else {
        match steps[0] {
            Ok(s) => {
                let rest = until_error(steps.drop_first());
                (seq![s] + rest.0, rest.1)
            },
            Err(m) => (Seq::empty(), Some(m)),
        }
    }
}

/// The views of resolved entries.
spec fn steps_view(steps: Seq<Result<DriverSetting, String>>) -> Seq<StepView> {
    steps.map_values(|s| step_view(s))
}

fn push_step(steps: &mut Vec<Result<DriverSetting, String>>, step: Result<DriverSetting, String>)
    ensures
        steps_view(final(steps)@) == steps_view(old(steps)@).push(step_view(step)),
{
    let ghost before = steps_view(steps@);
    steps.push(step);
    assert(steps_view(steps@) =~= before.push(step_view(step)));
}

fn resolve_idle(name: &String) -> (r: Result<IdleStrategy, String>)
    ensures
        match r {
            Ok(s) => idle_lookup(name@) == Ok::<IdleStrategy, Seq<char>>(s),
            Err(e) => idle_lookup(name@) == Err::<IdleStrategy, Seq<char>>(e@),
        },
{
    parse_idle_strategy(name.as_str())
}

fn push_directory_steps(c: &DriverConfig, steps: &mut Vec<Result<DriverSetting, String>>)
    ensures
        steps_view(final(steps)@) == steps_view(old(steps)@) + directory_steps(*c),
{
    let ghost v0 = steps_view(steps@);
    if let Some(d) = &c.dir {
        push_step(steps, Ok(DriverSetting::Dir(d.clone())));
    }
    if let Some(v) = c.dir_delete_on_start {
        push_step(steps, Ok(DriverSetting::DirDeleteOnStart(v)));
    }
    if let Some(v) = c.dir_delete_on_shutdown {
        push_step(steps, Ok(DriverSetting::DirDeleteOnShutdown(v)));
    }
    if let Some(name) = &c.threading_mode {
        let step = match parse_threading_mode(name.as_str()) {
            Ok(mode) => Ok(DriverSetting::Threading(mode)),
            Err(e) => Err(e),
        };
        push_step(steps, step);
    }
    assert(steps_view(steps@) =~= v0 + directory_steps(*c));
}

fn push_idle_steps(c: &DriverConfig, steps: &mut Vec<Result<DriverSetting, String>>)
    ensures
        steps_view(final(steps)@) == steps_view(old(steps)@) + idle_steps(*c),
{
    let ghost v0 = steps_view(steps@);
    if let Some(name) = &c.conductor_idle_strategy {
        let step = match resolve_idle(name) {
            Ok(s) => Ok(DriverSetting::ConductorIdle(s)),
            Err(e) => Err(e),
        };
        push_step(steps, step);
    }
    if let Some(name) = &c.sender_idle_strategy {
        let step = match resolve_idle(name) {
            Ok(s) => Ok(DriverSetting::SenderIdle(s)),
            Err(e) => Err(e),
        };
        push_step(steps, step);
    }
    if let Some(name) = &c.receiver_idle_strategy {
        let step = match resolve_idle(name) {
            Ok(s) => Ok(DriverSetting::ReceiverIdle(s)),
            Err(e) => Err(e),
        };
        push_step(steps, step);
    }
    assert(steps_view(steps@) =~= v0 + idle_steps(*c));
}

fn push_buffer_steps(c: &DriverConfig, steps: &mut Vec<Result<DriverSetting, String>>)
    ensures
        steps_view(final(steps)@) == steps_view(old(steps)@) + buffer_steps(*c),
{
    let ghost v0 = steps_view(steps@);
    if let Some(v) = c.term_buffer_length {
        push_step(steps, Ok(DriverSetting::TermBufferLength(v)));
    }
    if let Some(v) = c.ipc_term_buffer_length {
        push_step(steps, Ok(DriverSetting::IpcTermBufferLength(v)));
    }
    if let Some(v) = c.mtu_length {
        push_step(steps, Ok(DriverSetting::MtuLength(v)));
    }
    if let Some(v) = c.ipc_mtu_length {
        push_step(steps, Ok(DriverSetting::IpcMtuLength(v)));
    }
    if let Some(v) = c.socket_so_rcvbuf {
        push_step(steps, Ok(DriverSetting::SocketSoRcvbuf(v)));
    }
    if let Some(v) = c.socket_so_sndbuf {
        push_step(steps, Ok(DriverSetting::SocketSoSndbuf(v)));
    }
    assert(steps_view(steps@) =~= v0 + buffer_steps(*c));
}

fn push_affinity_steps(c: &DriverConfig, steps: &mut Vec<Result<DriverSetting, String>>)
    ensures
        steps_view(final(steps)@) == steps_view(old(steps)@) + affinity_steps(*c),
{
    let ghost v0 = steps_view(steps@);
    if let Some(v) = c.print_configuration {
        push_step(steps, Ok(DriverSetting::PrintConfiguration(v)));
    }
    if let Some(v) = c.conductor_cpu_affinity {
        push_step(steps, Ok(DriverSetting::ConductorCpuAffinity(v)));
    }
    if let Some(v) = c.sender_cpu_affinity {
        push_step(steps, Ok(DriverSetting::SenderCpuAffinity(v)));
    }
    if let Some(v) = c.receiver_cpu_affinity {
        push_step(steps, Ok(DriverSetting::ReceiverCpuAffinity(v)));
    }
    assert(steps_view(steps@) =~= v0 + affinity_steps(*c));
}

/// Resolves every present entry of a configuration, in the order the media
/// driver applies them.
pub fn config_entries(c: &DriverConfig) -> (r: Vec<Result<DriverSetting, String>>)
    ensures
        r@.map_values(|s| step_view(s)) == config_steps(*c),
{
    let mut steps: Vec<Result<DriverSetting, String>> = Vec::new();
    assert(steps_view(steps@) =~= Seq::<StepView>::empty());
    push_directory_steps(c, &mut steps);
    push_idle_steps(c, &mut steps);
    push_buffer_steps(c, &mut steps);
    push_affinity_steps(c, &mut steps);
    assert(steps_view(steps@) =~= config_steps(*c));
    steps
}

fn copy_setting(s: &DriverSetting) -> (r: DriverSetting)
    ensures
        r@ == s@,
{
    match s {
        DriverSetting::Dir(d) => DriverSetting::Dir(d.clone()),
        DriverSetting::DirDeleteOnStart(v) => DriverSetting::DirDeleteOnStart(*v),
        DriverSetting::DirDeleteOnShutdown(v) => DriverSetting::DirDeleteOnShutdown(*v),
        DriverSetting::Threading(v) => DriverSetting::Threading(*v),
        DriverSetting::ConductorIdle(v) => DriverSetting::ConductorIdle(*v),
        DriverSetting::SenderIdle(v) => DriverSetting::SenderIdle(*v),
        DriverSetting::ReceiverIdle(v) => DriverSetting::ReceiverIdle(*v),
        DriverSetting::TermBufferLength(v) => DriverSetting::TermBufferLength(*v),
        DriverSetting::IpcTermBufferLength(v) => DriverSetting::IpcTermBufferLength(*v),
        DriverSetting::MtuLength(v) => DriverSetting::MtuLength(*v),
        DriverSetting::IpcMtuLength(v) => DriverSetting::IpcMtuLength(*v),
        DriverSetting::SocketSoRcvbuf(v) => DriverSetting::SocketSoRcvbuf(*v),
        DriverSetting::SocketSoSndbuf(v) => DriverSetting::SocketSoSndbuf(*v),
        DriverSetting::PrintConfiguration(v) => DriverSetting::PrintConfiguration(*v),
        DriverSetting::ConductorCpuAffinity(v) => DriverSetting::ConductorCpuAffinity(*v),
        DriverSetting::SenderCpuAffinity(v) => DriverSetting::SenderCpuAffinity(*v),
        DriverSetting::ReceiverCpuAffinity(v) => DriverSetting::ReceiverCpuAffinity(*v),
    }
}

/// The settings a configuration asks for, in the order the media driver applies
/// them, up to its first threading mode or idle strategy name that is not
/// understood; and the message for that name, if there is one. The settings
/// before a bad name are still applied, as the driver applies entries one by
/// one and stops at the first it cannot read.
pub fn driver_settings(c: &DriverConfig) -> (r: (Vec<DriverSetting>, Option<String>))
    ensures
        r.0@.map_values(|s: DriverSetting| s@) == until_error(config_steps(*c)).0,
        match r.1 {
            Some(e) => until_error(config_steps(*c)).1 == Some(e@),
            None => until_error(config_steps(*c)).1 is None,
        },
{
    let entries = config_entries(c);
    let ghost steps = config_steps(*c);
    let n: usize = entries.len();
    let mut out: Vec<DriverSetting> = Vec::new();
    let mut i: usize = 0;
    assert(steps.skip(0) =~= steps);
    assert(out@.map_values(|s: DriverSetting| s@) =~= Seq::<SettingView>::empty());
    while i < n
        invariant
            n == entries@.len(),
            steps == config_steps(*c),
            steps == steps_view(entries@),
            i <= n,
            until_error(steps).1 == until_error(steps.skip(i as int)).1,
            until_error(steps).0 == out@.map_values(|s: DriverSetting| s@) + until_error(
                steps.skip(i as int),
            ).0,
        decreases n - i,
    {
        assert(steps.skip(i as int)[0] == step_view(entries@[i as int]));
        assert(steps.skip(i as int).drop_first() =~= steps.skip(i + 1));
        match &entries[i] {
            Ok(s) => {
                let ghost before = out@.map_values(|s: DriverSetting| s@);
                out.push(copy_setting(s));
                assert(out@.map_values(|s: DriverSetting| s@) =~= before.push(s@));
            },
            Err(e) => {
                assert(until_error(steps.skip(i as int)).0 =~= Seq::<SettingView>::empty());
                assert(until_error(steps).0 =~= out@.map_values(|s: DriverSetting| s@));
                return (out, Some(e.clone()));
            },
        }
        i = i + 1;
    }
    assert(steps.skip(n as int) =~= Seq::<StepView>::empty());
    assert(until_error(steps).0 =~= out@.map_values(|s: DriverSetting| s@));
    (out, None)
}

/// A configuration whose names are all understood loses none of its entries:
/// every resolved entry becomes a setting, in order, and no message is given.
/// Conversely a message is given exactly when some entry is not understood.
pub proof fn lemma_until_error_complete(steps: Seq<StepView>)
    ensures
        until_error(steps).1 is None <==> (forall|i: int| 0 <= i < steps.len() ==> steps[i] is Ok),
        (forall|i: int| 0 <= i < steps.len() ==> steps[i] is Ok) ==> until_error(steps).0
            == steps.map_values(|s: StepView| s->Ok_0),
    decreases steps.len(),
{
    if steps.len() > 0 {
        let rest = steps.drop_first();
        lemma_until_error_complete(rest);
        assert forall|i: int| 0 <= i < rest.len() implies rest[i] == steps[i + 1] by {}
        if (forall|i: int| 0 <= i < steps.len() ==> steps[i] is Ok) {
            assert(steps[0] is Ok);
            assert forall|i: int| 0 <= i < rest.len() implies rest[i] is Ok by {
                assert(steps[i + 1] is Ok);
            }
            assert(until_error(steps).0 =~= steps.map_values(|s: StepView| s->Ok_0));
        }
        if until_error(steps).1 is None {
            assert(steps[0] is Ok);
            assert forall|i: int| 0 <= i < steps.len() implies steps[i] is Ok by {
                if i > 0 {
                    assert(rest[i - 1] is Ok);
                }
            }
        }
    }
}

/// A configuration with no entries asks for no settings and gives no message.
pub proof fn lemma_empty_config_steps(c: DriverConfig)
    requires
        c.dir is None,
        c.dir_delete_on_start is None,
        c.dir_delete_on_shutdown is None,
        c.threading_mode is None,
        c.conductor_idle_strategy is None,
        c.sender_idle_strategy is None,
        c.receiver_idle_strategy is None,
        c.term_buffer_length is None,
        c.ipc_term_buffer_length is None,
        c.mtu_length is None,
        c.ipc_mtu_length is None,
        c.socket_so_rcvbuf is None,
        c.socket_so_sndbuf is None,
        c.print_configuration is None,
        c.conductor_cpu_affinity is None,
        c.sender_cpu_affinity is None,
        c.receiver_cpu_affinity is None,
    ensures
        config_steps(c) == Seq::<StepView>::empty(),
        until_error(config_steps(c)) == (Seq::<SettingView>::empty(), None::<Seq<char>>),
{
    assert(config_steps(c) =~= Seq::<StepView>::empty());
}

impl Default for DriverConfig {
    fn default() -> (r: Self)
        ensures
            r.dir is None,
            r.dir_delete_on_start is None,
            r.dir_delete_on_shutdown is None,
            r.threading_mode is None,
            r.conductor_idle_strategy is None,
            r.sender_idle_strategy is None,
            r.receiver_idle_strategy is None,
            r.term_buffer_length is None,
            r.ipc_term_buffer_length is None,
            r.mtu_length is None,
            r.ipc_mtu_length is None,
            r.socket_so_rcvbuf is None,
            r.socket_so_sndbuf is None,
            r.print_configuration is None,
            r.conductor_cpu_affinity is None,
            r.sender_cpu_affinity is None,
            r.receiver_cpu_affinity is None,
    {
        DriverConfig {
            dir: None,
            dir_delete_on_start: None,
            dir_delete_on_shutdown: None,
            threading_mode: None,
            conductor_idle_strategy: None,
            sender_idle_strategy: None,
            receiver_idle_strategy: None,
            term_buffer_length: None,
            ipc_term_buffer_length: None,
            mtu_length: None,
            ipc_mtu_length: None,
            socket_so_rcvbuf: None,
            socket_so_sndbuf: None,
            print_configuration: None,
            conductor_cpu_affinity: None,
            sender_cpu_affinity: None,
            receiver_cpu_affinity: None,
        }
    }
}

/// Whether a configuration has no entries at all.
pub open spec fn is_empty_config(e: DriverConfig) -> bool {
    &&& e.dir is None
    &&& e.dir_delete_on_start is None
    &&& e.dir_delete_on_shutdown is None
    &&& e.threading_mode is None
    &&& e.conductor_idle_strategy is None
    &&& e.sender_idle_strategy is None
    &&& e.receiver_idle_strategy is None
    &&& e.term_buffer_length is None
    &&& e.ipc_term_buffer_length is None
    &&& e.mtu_length is None
    &&& e.ipc_mtu_length is None
    &&& e.socket_so_rcvbuf is None
    &&& e.socket_so_sndbuf is None
    &&& e.print_configuration is None
    &&& e.conductor_cpu_affinity is None
    &&& e.sender_cpu_affinity is None
    &&& e.receiver_cpu_affinity is None
}


/// A configuration whose only entry is one directory and flag setting asks for exactly
/// that setting, of its own kind and carrying its own value (an unknown name
/// instead gives no setting and that name's message).
pub proof fn lemma_single_plain_entries(e: DriverConfig, dir: String, flag: bool)
    requires
        is_empty_config(e),
    ensures
        until_error(config_steps(DriverConfig { dir: Some(dir), ..e })) == (seq![SettingView::Dir(dir@)], None::<Seq<char>>),
        until_error(config_steps(DriverConfig { dir_delete_on_start: Some(flag), ..e })) == (seq![SettingView::DirDeleteOnStart(flag)], None::<Seq<char>>),
        until_error(config_steps(DriverConfig { dir_delete_on_shutdown: Some(flag), ..e })) == (seq![SettingView::DirDeleteOnShutdown(flag)], None::<Seq<char>>),
        until_error(config_steps(DriverConfig { print_configuration: Some(flag), ..e })) == (seq![SettingView::PrintConfiguration(flag)], None::<Seq<char>>),
{
    lemma_single_entry(config_steps(DriverConfig { dir: Some(dir), ..e }));
    assert(config_steps(DriverConfig { dir: Some(dir), ..e }) =~= seq![config_steps(DriverConfig { dir: Some(dir), ..e })[0]]);
    lemma_single_entry(config_steps(DriverConfig { dir_delete_on_start: Some(flag), ..e }));
    assert(config_steps(DriverConfig { dir_delete_on_start: Some(flag), ..e }) =~= seq![config_steps(DriverConfig { dir_delete_on_start: Some(flag), ..e })[0]]);
    lemma_single_entry(config_steps(DriverConfig { dir_delete_on_shutdown: Some(flag), ..e }));
    assert(config_steps(DriverConfig { dir_delete_on_shutdown: Some(flag), ..e }) =~= seq![config_steps(DriverConfig { dir_delete_on_shutdown: Some(flag), ..e })[0]]);
    lemma_single_entry(config_steps(DriverConfig { print_configuration: Some(flag), ..e }));
    assert(config_steps(DriverConfig { print_configuration: Some(flag), ..e }) =~= seq![config_steps(DriverConfig { print_configuration: Some(flag), ..e })[0]]);
}


/// A configuration whose only entry is one threading mode and idle strategy setting asks for exactly
/// that setting, of its own kind and carrying its own value (an unknown name
/// instead gives no setting and that name's message).
pub proof fn lemma_single_names_entries(e: DriverConfig, name: String)
    requires
        is_empty_config(e),
    ensures
        until_error(config_steps(DriverConfig { threading_mode: Some(name), ..e })) == match threading_mode_named(name@) { Some(m) => (seq![SettingView::Threading(m)], None::<Seq<char>>), None => (Seq::<SettingView>::empty(), Some(unknown_threading_mode_message(name@))) },
        until_error(config_steps(DriverConfig { conductor_idle_strategy: Some(name), ..e })) == match idle_strategy_named(name@) { Some(s) => (seq![SettingView::ConductorIdle(s)], None::<Seq<char>>), None => (Seq::<SettingView>::empty(), Some(unknown_idle_strategy_message(name@))) },
        until_error(config_steps(DriverConfig { sender_idle_strategy: Some(name), ..e })) == match idle_strategy_named(name@) { Some(s) => (seq![SettingView::SenderIdle(s)], None::<Seq<char>>), None => (Seq::<SettingView>::empty(), Some(unknown_idle_strategy_message(name@))) },
        until_error(config_steps(DriverConfig { receiver_idle_strategy: Some(name), ..e })) == match idle_strategy_named(name@) { Some(s) => (seq![SettingView::ReceiverIdle(s)], None::<Seq<char>>), None => (Seq::<SettingView>::empty(), Some(unknown_idle_strategy_message(name@))) },
{
    lemma_single_entry(config_steps(DriverConfig { threading_mode: Some(name), ..e }));
    assert(config_steps(DriverConfig { threading_mode: Some(name), ..e }) =~= seq![config_steps(DriverConfig { threading_mode: Some(name), ..e })[0]]);
    lemma_single_entry(config_steps(DriverConfig { conductor_idle_strategy: Some(name), ..e }));
    assert(config_steps(DriverConfig { conductor_idle_strategy: Some(name), ..e }) =~= seq![config_steps(DriverConfig { conductor_idle_strategy: Some(name), ..e })[0]]);
    lemma_single_entry(config_steps(DriverConfig { sender_idle_strategy: Some(name), ..e }));
    assert(config_steps(DriverConfig { sender_idle_strategy: Some(name), ..e }) =~= seq![config_steps(DriverConfig { sender_idle_strategy: Some(name), ..e })[0]]);
    lemma_single_entry(config_steps(DriverConfig { receiver_idle_strategy: Some(name), ..e }));
    assert(config_steps(DriverConfig { receiver_idle_strategy: Some(name), ..e }) =~= seq![config_steps(DriverConfig { receiver_idle_strategy: Some(name), ..e })[0]]);
}


/// A configuration whose only entry is one length and affinity setting asks for exactly
/// that setting, of its own kind and carrying its own value (an unknown name
/// instead gives no setting and that name's message).
pub proof fn lemma_single_numbers_entries(e: DriverConfig, len: usize, cpu: i32)
    requires
        is_empty_config(e),
    ensures
        until_error(config_steps(DriverConfig { term_buffer_length: Some(len), ..e })) == (seq![SettingView::TermBufferLength(len)], None::<Seq<char>>),
        until_error(config_steps(DriverConfig { ipc_term_buffer_length: Some(len), ..e })) == (seq![SettingView::IpcTermBufferLength(len)], None::<Seq<char>>),
        until_error(config_steps(DriverConfig { mtu_length: Some(len), ..e })) == (seq![SettingView::MtuLength(len)], None::<Seq<char>>),
        until_error(config_steps(DriverConfig { ipc_mtu_length: Some(len), ..e })) == (seq![SettingView::IpcMtuLength(len)], None::<Seq<char>>),
        until_error(config_steps(DriverConfig { socket_so_rcvbuf: Some(len), ..e })) == (seq![SettingView::SocketSoRcvbuf(len)], None::<Seq<char>>),
        until_error(config_steps(DriverConfig { socket_so_sndbuf: Some(len), ..e })) == (seq![SettingView::SocketSoSndbuf(len)], None::<Seq<char>>),
        until_error(config_steps(DriverConfig { conductor_cpu_affinity: Some(cpu), ..e })) == (seq![SettingView::ConductorCpuAffinity(cpu)], None::<Seq<char>>),
        until_error(config_steps(DriverConfig { sender_cpu_affinity: Some(cpu), ..e })) == (seq![SettingView::SenderCpuAffinity(cpu)], None::<Seq<char>>),
        until_error(config_steps(DriverConfig { receiver_cpu_affinity: Some(cpu), ..e })) == (seq![SettingView::ReceiverCpuAffinity(cpu)], None::<Seq<char>>),
{
    lemma_single_entry(config_steps(DriverConfig { term_buffer_length: Some(len), ..e }));
    assert(config_steps(DriverConfig { term_buffer_length: Some(len), ..e }) =~= seq![config_steps(DriverConfig { term_buffer_length: Some(len), ..e })[0]]);
    lemma_single_entry(config_steps(DriverConfig { ipc_term_buffer_length: Some(len), ..e }));
    assert(config_steps(DriverConfig { ipc_term_buffer_length: Some(len), ..e }) =~= seq![config_steps(DriverConfig { ipc_term_buffer_length: Some(len), ..e })[0]]);
    lemma_single_entry(config_steps(DriverConfig { mtu_length: Some(len), ..e }));
    assert(config_steps(DriverConfig { mtu_length: Some(len), ..e }) =~= seq![config_steps(DriverConfig { mtu_length: Some(len), ..e })[0]]);
    lemma_single_entry(config_steps(DriverConfig { ipc_mtu_length: Some(len), ..e }));
    assert(config_steps(DriverConfig { ipc_mtu_length: Some(len), ..e }) =~= seq![config_steps(DriverConfig { ipc_mtu_length: Some(len), ..e })[0]]);
    lemma_single_entry(config_steps(DriverConfig { socket_so_rcvbuf: Some(len), ..e }));
    assert(config_steps(DriverConfig { socket_so_rcvbuf: Some(len), ..e }) =~= seq![config_steps(DriverConfig { socket_so_rcvbuf: Some(len), ..e })[0]]);
    lemma_single_entry(config_steps(DriverConfig { socket_so_sndbuf: Some(len), ..e }));
    assert(config_steps(DriverConfig { socket_so_sndbuf: Some(len), ..e }) =~= seq![config_steps(DriverConfig { socket_so_sndbuf: Some(len), ..e })[0]]);
    lemma_single_entry(config_steps(DriverConfig { conductor_cpu_affinity: Some(cpu), ..e }));
    assert(config_steps(DriverConfig { conductor_cpu_affinity: Some(cpu), ..e }) =~= seq![config_steps(DriverConfig { conductor_cpu_affinity: Some(cpu), ..e })[0]]);
    lemma_single_entry(config_steps(DriverConfig { sender_cpu_affinity: Some(cpu), ..e }));
    assert(config_steps(DriverConfig { sender_cpu_affinity: Some(cpu), ..e }) =~= seq![config_steps(DriverConfig { sender_cpu_affinity: Some(cpu), ..e })[0]]);
    lemma_single_entry(config_steps(DriverConfig { receiver_cpu_affinity: Some(cpu), ..e }));
    assert(config_steps(DriverConfig { receiver_cpu_affinity: Some(cpu), ..e }) =~= seq![config_steps(DriverConfig { receiver_cpu_affinity: Some(cpu), ..e })[0]]);
}


proof fn lemma_single_entry(steps: Seq<StepView>)
    requires
        steps.len() == 1,
    ensures
        until_error(steps) == match steps[0] {
            Ok(s) => (seq![s], None::<Seq<char>>),
            Err(m) => (Seq::<SettingView>::empty(), Some(m)),
        },
{
    assert(steps.drop_first() =~= Seq::<StepView>::empty());
    assert(until_error(steps.drop_first()) == (Seq::<SettingView>::empty(), None::<Seq<char>>));
    assert(seq![steps[0]->Ok_0] + Seq::<SettingView>::empty() =~= seq![steps[0]->Ok_0]);
}


/// A configuration with every entry present, and known names, resolves to one
/// setting per entry, each of its own kind and carrying its own value, in the
/// order the media driver applies them: directory, deletion flags, threading
/// mode, conductor/sender/receiver idle strategies, term, IPC term, MTU and IPC
/// MTU lengths, receive and send socket buffers, printing, and the conductor,
/// sender and receiver CPU affinities.
pub proof fn lemma_full_config_order(c: DriverConfig)
    requires
        c.dir is Some,
        c.dir_delete_on_start is Some,
        c.dir_delete_on_shutdown is Some,
        c.threading_mode is Some,
        c.conductor_idle_strategy is Some,
        c.sender_idle_strategy is Some,
        c.receiver_idle_strategy is Some,
        c.term_buffer_length is Some,
        c.ipc_term_buffer_length is Some,
        c.mtu_length is Some,
        c.ipc_mtu_length is Some,
        c.socket_so_rcvbuf is Some,
        c.socket_so_sndbuf is Some,
        c.print_configuration is Some,
        c.conductor_cpu_affinity is Some,
        c.sender_cpu_affinity is Some,
        c.receiver_cpu_affinity is Some,
        threading_mode_named(c.threading_mode->0@) is Some,
        idle_strategy_named(c.conductor_idle_strategy->0@) is Some,
        idle_strategy_named(c.sender_idle_strategy->0@) is Some,
        idle_strategy_named(c.receiver_idle_strategy->0@) is Some,
    ensures
        config_steps(c) == seq![
            Ok::<SettingView, Seq<char>>(SettingView::Dir(c.dir->0@)),
            Ok(SettingView::DirDeleteOnStart(c.dir_delete_on_start->0)),
            Ok(SettingView::DirDeleteOnShutdown(c.dir_delete_on_shutdown->0)),
            Ok(SettingView::Threading(threading_mode_named(c.threading_mode->0@)->0)),
            Ok(SettingView::ConductorIdle(idle_strategy_named(c.conductor_idle_strategy->0@)->0)),
            Ok(SettingView::SenderIdle(idle_strategy_named(c.sender_idle_strategy->0@)->0)),
            Ok(SettingView::ReceiverIdle(idle_strategy_named(c.receiver_idle_strategy->0@)->0)),
            Ok(SettingView::TermBufferLength(c.term_buffer_length->0)),
            Ok(SettingView::IpcTermBufferLength(c.ipc_term_buffer_length->0)),
            Ok(SettingView::MtuLength(c.mtu_length->0)),
            Ok(SettingView::IpcMtuLength(c.ipc_mtu_length->0)),
            Ok(SettingView::SocketSoRcvbuf(c.socket_so_rcvbuf->0)),
            Ok(SettingView::SocketSoSndbuf(c.socket_so_sndbuf->0)),
            Ok(SettingView::PrintConfiguration(c.print_configuration->0)),
            Ok(SettingView::ConductorCpuAffinity(c.conductor_cpu_affinity->0)),
            Ok(SettingView::SenderCpuAffinity(c.sender_cpu_affinity->0)),
            Ok(SettingView::ReceiverCpuAffinity(c.receiver_cpu_affinity->0)),
        ],
{
    assert(config_steps(c) =~= seq![
        Ok::<SettingView, Seq<char>>(SettingView::Dir(c.dir->0@)),
        Ok(SettingView::DirDeleteOnStart(c.dir_delete_on_start->0)),
        Ok(SettingView::DirDeleteOnShutdown(c.dir_delete_on_shutdown->0)),
        Ok(SettingView::Threading(threading_mode_named(c.threading_mode->0@)->0)),
        Ok(SettingView::ConductorIdle(idle_strategy_named(c.conductor_idle_strategy->0@)->0)),
        Ok(SettingView::SenderIdle(idle_strategy_named(c.sender_idle_strategy->0@)->0)),
        Ok(SettingView::ReceiverIdle(idle_strategy_named(c.receiver_idle_strategy->0@)->0)),
        Ok(SettingView::TermBufferLength(c.term_buffer_length->0)),
        Ok(SettingView::IpcTermBufferLength(c.ipc_term_buffer_length->0)),
        Ok(SettingView::MtuLength(c.mtu_length->0)),
        Ok(SettingView::IpcMtuLength(c.ipc_mtu_length->0)),
        Ok(SettingView::SocketSoRcvbuf(c.socket_so_rcvbuf->0)),
        Ok(SettingView::SocketSoSndbuf(c.socket_so_sndbuf->0)),
        Ok(SettingView::PrintConfiguration(c.print_configuration->0)),
        Ok(SettingView::ConductorCpuAffinity(c.conductor_cpu_affinity->0)),
        Ok(SettingView::SenderCpuAffinity(c.sender_cpu_affinity->0)),
        Ok(SettingView::ReceiverCpuAffinity(c.receiver_cpu_affinity->0)),
    ]);
}

/// The settings resolved before the first entry that is not understood are all
/// kept, in order, and nothing after that entry is: when entry `k` is the first
/// one not understood, the result is the first `k` settings and entry `k`'s
/// message.
pub proof fn lemma_until_error_stops_at_first_error(steps: Seq<StepView>, k: int)
    requires
        0 <= k < steps.len(),
        steps[k] is Err,
        forall|i: int| 0 <= i < k ==> steps[i] is Ok,
    ensures
        until_error(steps) == (
            steps.take(k).map_values(|s: StepView| s->Ok_0),
            Some(steps[k]->Err_0),
        ),
    decreases k,
{
    if k == 0 {
        assert(steps.take(0).map_values(|s: StepView| s->Ok_0) =~= Seq::<SettingView>::empty());
    } else {
        let rest = steps.drop_first();
        assert forall|i: int| 0 <= i < k - 1 implies rest[i] is Ok by {
            assert(rest[i] == steps[i + 1]);
        }
        assert(steps[0] is Ok);
        lemma_until_error_stops_at_first_error(rest, k - 1);
        assert(steps.take(k).map_values(|s: StepView| s->Ok_0) =~= seq![steps[0]->Ok_0]
            + rest.take(k - 1).map_values(|s: StepView| s->Ok_0));
    }
}

} // verus!
