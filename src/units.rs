use vstd::prelude::*;
use vstd::string::*;
use crate::activation::UnitKind;
use crate::config::Config;

verus! {

/// What the unit texts depend on besides the configuration.
pub struct EnvironmentFacts {
    /// Absolute path of this program's own executable.
    pub executable: String,
    /// Directory the services run in.
    pub working_dir: String,
    /// Absolute path of the configuration file.
    pub config_path: String,
}

/// The three unit definitions of one program.
pub struct UnitSet {
    pub update_service: String,
    pub update_timer: String,
    pub run_service: String,
}

/// The decimal digit for `d % 10`.
pub open spec fn digit_char(d: nat) -> char {
    let r = d % 10;
    if r == 0 { '0' } else if r == 1 { '1' } else if r == 2 { '2' } else if r == 3 { '3' }
    else if r == 4 { '4' } else if r == 5 { '5' } else if r == 6 { '6' } else if r == 7 { '7' }
    else if r == 8 { '8' } else { '9' }
}

/// The decimal notation of `n`, without leading zeros.
pub open spec fn decimal(n: nat) -> Seq<char>
    decreases n,
{
    if n < 10 {
        seq![digit_char(n)]
    } else {
        decimal(n / 10).push(digit_char(n % 10))
    }
}

pub open spec fn update_service_name(name: Seq<char>) -> Seq<char> {
    "update-"@ + name + ".service"@
}

pub open spec fn update_timer_name(name: Seq<char>) -> Seq<char> {
    "update-"@ + name + ".timer"@
}

pub open spec fn run_service_name(name: Seq<char>) -> Seq<char> {
    "run-"@ + name + ".service"@
}

/// The one-shot update service: it wants the run service, starts after the
/// network, and runs `<executable> update <config>`.
pub open spec fn update_unit_text(
    name: Seq<char>,
    exe: Seq<char>,
    wd: Seq<char>,
    cfg: Seq<char>,
) -> Seq<char> {
    "[Unit]\nDescription=deploy-helper update for "@ + name + "\nWants="@ + run_service_name(name)
        + "\nAfter=network-online.target\n\n[Service]\nType=oneshot\nWorkingDirectory="@ + wd
        + "\nExecStart="@ + exe + " update "@ + cfg + "\n"@
}

/// The timer text up to its recurrence value.
pub open spec fn timer_head(name: Seq<char>) -> Seq<char> {
    "[Unit]\nDescription=deploy-helper update timer for "@ + name
        + "\n\n[Timer]\nOnBootSec=1min\nOnUnitActiveSec="@
}

/// The timer text after its recurrence value.
pub open spec fn timer_tail(name: Seq<char>) -> Seq<char> {
    "\nUnit="@ + update_service_name(name) + "\n\n[Install]\nWantedBy=timers.target\n"@
}

/// The update timer: first fire a minute after boot, then every `interval`
/// seconds, installed into the timers target.
pub open spec fn timer_unit_text(name: Seq<char>, interval: nat) -> Seq<char> {
    timer_head(name) + decimal(interval) + timer_tail(name)
}

/// The long-running service: runs `<executable> run <config>`, restarted
/// five seconds after a failure, installed into the multi-user target.
pub open spec fn run_unit_text(
    name: Seq<char>,
    exe: Seq<char>,
    wd: Seq<char>,
    cfg: Seq<char>,
) -> Seq<char> {
    "[Unit]\nDescription=deploy-helper run for "@ + name
        + "\n\n[Service]\nType=simple\nWorkingDirectory="@ + wd + "\nExecStart="@ + exe
        + " run "@ + cfg + "\nRestart=on-failure\nRestartSec=5\n\n[Install]\nWantedBy=multi-user.target\n"@
}

fn digit_str(d: u32) -> (r: &'static str)
    requires
        d < 10,
    ensures
        r@ == seq![digit_char(d as nat)],
{
    proof {
        reveal_strlit("0");
        reveal_strlit("1");
        reveal_strlit("2");
        reveal_strlit("3");
        reveal_strlit("4");
        reveal_strlit("5");
        reveal_strlit("6");
        reveal_strlit("7");
        reveal_strlit("8");
        reveal_strlit("9");
    }
    match d {
        0 => "0",
        1 => "1",
        2 => "2",
        3 => "3",
        4 => "4",
        5 => "5",
        6 => "6",
        7 => "7",
        8 => "8",
        _ => "9",
    }
}

/// The decimal notation of `n`.
pub fn decimal_string(n: u32) -> (r: String)
    ensures
        r@ == decimal(n as nat),
    decreases n,
{
    if n < 10 {
        String::from_str(digit_str(n))
    } else {
        let mut s = decimal_string(n / 10);
        s.append(digit_str(n % 10));
        s
    }
}

/// Name of the update service unit.
pub fn update_service_unit(name: &String) -> (r: String)
    ensures
        r@ == update_service_name(name@),
{
    let mut s = String::from_str("update-");
    s.append(name.as_str());
    s.append(".service");
    s
}

/// Name of the update timer unit.
pub fn update_timer_unit(name: &String) -> (r: String)
    ensures
        r@ == update_timer_name(name@),
{
    let mut s = String::from_str("update-");
    s.append(name.as_str());
    s.append(".timer");
    s
}

/// Name of the run service unit.
pub fn run_service_unit(name: &String) -> (r: String)
    ensures
        r@ == run_service_name(name@),
{
    let mut s = String::from_str("run-");
    s.append(name.as_str());
    s.append(".service");
    s
}

/// The unit name of one of a program's units.
pub open spec fn unit_name_of(k: UnitKind, name: Seq<char>) -> Seq<char> {
    match k {
        UnitKind::UpdateService => update_service_name(name),
        UnitKind::UpdateTimer => update_timer_name(name),
        UnitKind::RunService => run_service_name(name),
    }
}

/// The unit name of one of a program's units.
pub fn unit_name(k: UnitKind, name: &String) -> (r: String)
    ensures
        r@ == unit_name_of(k, name@),
{
    match k {
        UnitKind::UpdateService => update_service_unit(name),
        UnitKind::UpdateTimer => update_timer_unit(name),
        UnitKind::RunService => run_service_unit(name),
    }
}

/// The path of the file that serialises the updates of a program.
pub open spec fn lock_path_of(name: Seq<char>) -> Seq<char> {
    "/var/lock/update-"@ + name + ".lock"@
}

/// The path of the file that serialises the updates of a program.
pub fn lock_path(name: &String) -> (r: String)
    ensures
        r@ == lock_path_of(name@),
{
    let mut s = String::from_str("/var/lock/update-");
    s.append(name.as_str());
    s.append(".lock");
    s
}

/// Where a unit's file is installed: `dir`, a slash, and the unit name.
pub open spec fn unit_path_of(dir: Seq<char>, k: UnitKind, name: Seq<char>) -> Seq<char> {
    dir + "/"@ + unit_name_of(k, name)
}

/// Where a unit's file is installed.
pub fn unit_path(dir: &String, k: UnitKind, name: &String) -> (r: String)
    ensures
        r@ == unit_path_of(dir@, k, name@),
{
    let mut s = dir.clone();
    s.append("/");
    let u = unit_name(k, name);
    s.append(u.as_str());
    s
}

/// Whether `u` holds the three unit texts of `config` in `env`.
pub open spec fn renders(config: Config, env: EnvironmentFacts, u: UnitSet) -> bool {
    &&& u.update_service@ == update_unit_text(
        config.program_name@,
        env.executable@,
        env.working_dir@,
        env.config_path@,
    )
    &&& u.update_timer@ == timer_unit_text(config.program_name@, config.update.interval as nat)
    &&& u.run_service@ == run_unit_text(
        config.program_name@,
        env.executable@,
        env.working_dir@,
        env.config_path@,
    )
}

/// Renders the three unit definitions; a function of its arguments only.
pub fn generate_units(config: &Config, env: &EnvironmentFacts) -> (r: UnitSet)
    ensures
        renders(*config, *env, r),
        r.update_service@ == update_unit_text(
            config.program_name@,
            env.executable@,
            env.working_dir@,
            env.config_path@,
        ),
        r.update_timer@ == timer_unit_text(config.program_name@, config.update.interval as nat),
        r.run_service@ == run_unit_text(
            config.program_name@,
            env.executable@,
            env.working_dir@,
            env.config_path@,
        ),
{
    let name = &config.program_name;
    let run_name = run_service_unit(name);
    let update_name = update_service_unit(name);

    let mut u = String::from_str("[Unit]\nDescription=deploy-helper update for ");
    u.append(name.as_str());
    u.append("\nWants=");
    u.append(run_name.as_str());
    u.append("\nAfter=network-online.target\n\n[Service]\nType=oneshot\nWorkingDirectory=");
    u.append(env.working_dir.as_str());
    u.append("\nExecStart=");
    u.append(env.executable.as_str());
    u.append(" update ");
    u.append(env.config_path.as_str());
    u.append("\n");

    let mut t = String::from_str("[Unit]\nDescription=deploy-helper update timer for ");
    t.append(name.as_str());
    t.append("\n\n[Timer]\nOnBootSec=1min\nOnUnitActiveSec=");
    let interval = decimal_string(config.update.interval);
    t.append(interval.as_str());
    t.append("\nUnit=");
    t.append(update_name.as_str());
    t.append("\n\n[Install]\nWantedBy=timers.target\n");

    let mut r = String::from_str("[Unit]\nDescription=deploy-helper run for ");
    r.append(name.as_str());
    r.append("\n\n[Service]\nType=simple\nWorkingDirectory=");
    r.append(env.working_dir.as_str());
    r.append("\nExecStart=");
    r.append(env.executable.as_str());
    r.append(" run ");
    r.append(env.config_path.as_str());
    r.append("\nRestart=on-failure\nRestartSec=5\n\n[Install]\nWantedBy=multi-user.target\n");

    proof {
        assert(u@ =~= update_unit_text(name@, env.executable@, env.working_dir@, env.config_path@));
        assert(t@ =~= timer_unit_text(name@, config.update.interval as nat));
        assert(r@ =~= run_unit_text(name@, env.executable@, env.working_dir@, env.config_path@));
    }
    UnitSet { update_service: u, update_timer: t, run_service: r }
}

/// Rendering is deterministic: two renderings of equal configurations in
/// equal environments are byte-identical.
pub proof fn lemma_generation_deterministic(
    c1: Config,
    e1: EnvironmentFacts,
    r1: UnitSet,
    c2: Config,
    e2: EnvironmentFacts,
    r2: UnitSet,
)
    requires
        renders(c1, e1, r1),
        renders(c2, e2, r2),
        c1.program_name@ == c2.program_name@,
        c1.update.interval == c2.update.interval,
        e1.executable@ == e2.executable@,
        e1.working_dir@ == e2.working_dir@,
        e1.config_path@ == e2.config_path@,
    ensures
        r1.update_service@ == r2.update_service@,
        r1.update_timer@ == r2.update_timer@,
        r1.run_service@ == r2.run_service@,
{
}

/// Changing the update interval changes only the timer's recurrence value:
/// for two renderings whose inputs differ at most in the interval, both
/// services are identical, and the two timers share everything before and
/// after that value, which is the interval in decimal. Different intervals
/// give different timers.
pub proof fn lemma_interval_only_changes_timer_value(
    c1: Config,
    e1: EnvironmentFacts,
    r1: UnitSet,
    c2: Config,
    e2: EnvironmentFacts,
    r2: UnitSet,
)
    requires
        renders(c1, e1, r1),
        renders(c2, e2, r2),
        c1.program_name@ == c2.program_name@,
        e1.executable@ == e2.executable@,
        e1.working_dir@ == e2.working_dir@,
        e1.config_path@ == e2.config_path@,
    ensures
        r1.update_service@ == r2.update_service@,
        r1.run_service@ == r2.run_service@,
        ({
            let t1 = r1.update_timer@;
            let t2 = r2.update_timer@;
            let d1 = decimal(c1.update.interval as nat);
            let d2 = decimal(c2.update.interval as nat);
            let p = timer_head(c1.program_name@).len();
            let q1 = p + d1.len();
            let q2 = p + d2.len();
            &&& t1.subrange(0, p as int) == t2.subrange(0, p as int)
            &&& t1.subrange(p as int, q1 as int) == d1
            &&& t2.subrange(p as int, q2 as int) == d2
            &&& t1.subrange(q1 as int, t1.len() as int) == t2.subrange(q2 as int, t2.len() as int)
        }),
        c1.update.interval != c2.update.interval ==> r1.update_timer@ != r2.update_timer@,
{
    let name = c1.program_name@;
    let i1 = c1.update.interval as nat;
    let i2 = c2.update.interval as nat;
    let h = timer_head(name);
    let tl = timer_tail(name);
    let t1 = timer_unit_text(name, i1);
    let t2 = timer_unit_text(name, i2);
    let p = h.len();
    assert(t1.subrange(0, p as int) =~= h);
    assert(t2.subrange(0, p as int) =~= h);
    assert(t1.subrange(p as int, (p + decimal(i1).len()) as int) =~= decimal(i1));
    assert(t2.subrange(p as int, (p + decimal(i2).len()) as int) =~= decimal(i2));
    assert(t1.subrange((p + decimal(i1).len()) as int, t1.len() as int) =~= tl);
    assert(t2.subrange((p + decimal(i2).len()) as int, t2.len() as int) =~= tl);
    if i1 != i2 && t1 == t2 {
        lemma_decimal_injective(i1, i2);
        if decimal(i1).len() == decimal(i2).len() {
            assert(t1.subrange(p as int, (p + decimal(i1).len()) as int) == t2.subrange(p as int, (p + decimal(i2).len()) as int));
        } else {
            lemma_decimal_no_newline(i1);
            lemma_decimal_no_newline(i2);
            assert(tl[0] == '\n') by { reveal_strlit("\nUnit="); }
            if decimal(i1).len() < decimal(i2).len() {
                let j = p + decimal(i1).len();
                assert(t1[j as int] == tl[0]);
                assert(t2[j as int] == decimal(i2)[decimal(i1).len() as int]);
            } else {
                let j = p + decimal(i2).len();
                assert(t2[j as int] == tl[0]);
                assert(t1[j as int] == decimal(i1)[decimal(i2).len() as int]);
            }
        }
    }
}

proof fn lemma_decimal_no_newline(n: nat)
    ensures
        forall|k: int| 0 <= k < decimal(n).len() ==> decimal(n)[k] != '\n',
        decimal(n).len() >= 1,
    decreases n,
{
    if n >= 10 {
        lemma_decimal_no_newline(n / 10);
    }
}

/// Equal notations of the same length come from equal numbers.
proof fn lemma_decimal_injective(a: nat, b: nat)
    requires
        decimal(a) == decimal(b),
    ensures
        a == b,
    decreases a,
{
    if a < 10 && b < 10 {
        assert(decimal(a)[0] == digit_char(a));
        assert(decimal(b)[0] == digit_char(b));
    } else if a < 10 {
        lemma_decimal_no_newline(b / 10);
        assert(decimal(b).len() >= 2);
    } else if b < 10 {
        lemma_decimal_no_newline(a / 10);
        assert(decimal(a).len() >= 2);
    } else {
        let da = decimal(a / 10);
        let db = decimal(b / 10);
        assert(decimal(a).drop_last() =~= da);
        assert(decimal(b).drop_last() =~= db);
        lemma_decimal_injective(a / 10, b / 10);
        assert(decimal(a).last() == digit_char(a % 10));
        assert(decimal(b).last() == digit_char(b % 10));
        assert(a % 10 == b % 10);
        assert(a == 10 * (a / 10) + a % 10);
        assert(b == 10 * (b / 10) + b % 10);
    }
}

} // verus!
