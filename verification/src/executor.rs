//! The executor: which commands a change asks for, what the end of each
//! command means, and how the outcomes of all of them combine.
//!
//! The commands themselves are run by the caller, all at once; nothing here
//! depends on the order in which they end.

use crate::config::{copy_strings, Config, ConfigView};
use crate::dms::{views_of, WallpaperChange, WallpaperView};
use crate::error::{message_of, DmsAwwwError, ErrorView};
use crate::text::texts_of;
use vstd::prelude::*;

verus! {

/// Applies changes to a list of monitors.
#[derive(Debug, Clone)]
pub struct Executor {
    config: Config,
    monitors: Vec<String>,
}

/// One wallpaper to set on one monitor.
#[derive(Debug, Clone, PartialEq, Eq)]
pub struct AwwwJob {
    pub path: String,
    pub monitor: String,
}

/// What an `AwwwJob` holds, as sequences of characters.
pub struct JobView {
    pub path: Seq<char>,
    pub monitor: Seq<char>,
}

impl View for AwwwJob {
    type V = JobView;

    open spec fn view(&self) -> JobView {
        JobView { path: self.path@, monitor: self.monitor@ }
    }
}

/// The one run that derives the theme: the image it starts from, and the
/// arguments of the command.
#[derive(Debug, Clone, PartialEq, Eq)]
pub struct MatugenJob {
    pub path: String,
    pub args: Vec<String>,
}

/// How a command ended.
#[derive(Debug, Clone, PartialEq, Eq)]
pub enum ExitReport {
    /// It ended by itself, with this exit code.
    Exited(i32),
    /// A signal ended it; the text names the signal.
    Signaled(String),
}

/// What came of one job.
#[derive(Debug, Clone, PartialEq, Eq)]
pub enum JobReport {
    /// The image is not on disk, so the command was not run.
    MissingImage,
    /// The command could not be run; the text says why.
    NotRun(String),
    /// The command ran and ended.
    Ended(ExitReport),
    /// The task of the job broke off; the text says how.
    Panicked(String),
}

/// The views of a list of jobs.
pub open spec fn job_views(jobs: Seq<AwwwJob>) -> Seq<JobView> {
    Seq::new(jobs.len(), |i: int| jobs[i]@)
}

/// The monitors that a wallpaper is set on: its own where it has one, else
/// every known monitor, else `ALL`.
pub open spec fn targets_of(monitor: Option<Seq<char>>, monitors: Seq<Seq<char>>) -> Seq<
    Seq<char>,
> {
    match monitor {
        Some(own) => seq![own],
        None => if monitors.len() > 0 {
            monitors
        } else {
            seq!["ALL"@]
        },
    }
}

/// The jobs of one wallpaper: one for each of its monitors.
pub open spec fn jobs_for(wallpaper: WallpaperView, monitors: Seq<Seq<char>>) -> Seq<JobView> {
    let targets = targets_of(wallpaper.monitor, monitors);
    Seq::new(targets.len(), |i: int| JobView { path: wallpaper.path, monitor: targets[i] })
}

/// The jobs of a list of wallpapers, wallpaper by wallpaper.
pub open spec fn jobs_of(wallpapers: Seq<WallpaperView>, monitors: Seq<Seq<char>>) -> Seq<JobView>
    decreases wallpapers.len(),
{
    if wallpapers.len() == 0 {
        Seq::empty()
    } else {
        jobs_of(wallpapers.drop_last(), monitors) + jobs_for(wallpapers.last(), monitors)
    }
}

/// The arguments of the command that sets one wallpaper.
pub open spec fn awww_args_of(extra: Seq<Seq<char>>, job: JobView) -> Seq<Seq<char>> {
    extra + seq!["img"@, "-o"@, job.monitor, job.path]
}

/// The directory of the user's configuration.
pub open spec fn config_dir_of(home: Option<Seq<char>>) -> Seq<char> {
    match home {
        Some(dir) => dir + "/.config"@,
        None => "~/.config"@,
    }
}

/// The name of a mode.
pub open spec fn mode_name(is_light_mode: bool) -> Seq<char> {
    if is_light_mode {
        "light"@
    } else {
        "dark"@
    }
}

/// The arguments of the command that derives the theme.
pub open spec fn matugen_args_of(
    config: ConfigView,
    home: Option<Seq<char>>,
    path: Seq<char>,
    is_light_mode: bool,
) -> Seq<Seq<char>> {
    seq![
        "matugen"@,
        "queue"@,
        "--state-dir"@,
        config.cache_dir,
        "--shell-dir"@,
        config.shell_dir,
        "--config-dir"@,
        config_dir_of(home),
        "--kind"@,
        "image"@,
        "--value"@,
        path,
        "--mode"@,
        mode_name(is_light_mode),
        "--matugen-type"@,
        config.default_scheme,
        "--wait"@,
    ]
}

/// The failure that reports a change without wallpapers.
pub open spec fn no_wallpapers() -> ErrorView {
    ErrorView::InvalidWallpaperPath("No wallpapers"@)
}

/// What the end of a job means: success where the command ended with exit
/// code 0, and else the failure of its kind.
pub open spec fn outcome_of(command: Seq<char>, path: Seq<char>, report: JobReport) -> Result<
    (),
    ErrorView,
> {
    match report {
        JobReport::MissingImage => Err(ErrorView::InvalidWallpaperPath(path)),
        JobReport::NotRun(why) => Err(ErrorView::Io(why@)),
        JobReport::Ended(ExitReport::Exited(code)) => if code == 0 {
            Ok(())
        } else {
            Err(ErrorView::CommandFailed(command, code as int))
        },
        JobReport::Ended(ExitReport::Signaled(signal)) => Err(
            ErrorView::CommandTerminated(command, signal@),
        ),
        JobReport::Panicked(how) => Err(ErrorView::MultipleErrors(seq!["Task panic: "@ + how@])),
    }
}

/// The view of an outcome.
pub open spec fn outcome_view(outcome: Result<(), DmsAwwwError>) -> Result<(), ErrorView> {
    match outcome {
        Ok(_) => Ok(()),
        Err(e) => Err(e@),
    }
}

/// The views of a list of outcomes.
pub open spec fn outcome_views(outcomes: Seq<Result<(), DmsAwwwError>>) -> Seq<
    Result<(), ErrorView>,
> {
    Seq::new(outcomes.len(), |i: int| outcome_view(outcomes[i]))
}

/// The failures among a list of outcomes, in order.
pub open spec fn failures_of(outcomes: Seq<Result<(), ErrorView>>) -> Seq<ErrorView>
    decreases outcomes.len(),
{
    if outcomes.len() == 0 {
        Seq::empty()
    } else {
        match outcomes.last() {
            Ok(_) => failures_of(outcomes.drop_last()),
            Err(e) => failures_of(outcomes.drop_last()).push(e),
        }
    }
}

/// The messages that a failure stands for: those that it holds where it is
/// an aggregate, else its own.
pub open spec fn messages_of(e: ErrorView) -> Seq<Seq<char>> {
    match e {
        ErrorView::MultipleErrors(all) => all,
        _ => seq![message_of(e)],
    }
}

/// The messages of a list of failures, in order.
pub open spec fn all_messages(failures: Seq<ErrorView>) -> Seq<Seq<char>>
    decreases failures.len(),
{
    if failures.len() == 0 {
        Seq::empty()
    } else {
        all_messages(failures.drop_last()) + messages_of(failures.last())
    }
}

/// What a list of failures comes to: success where there is none, the
/// failure itself where there is one, and else the aggregate of the messages
/// of all.
pub open spec fn combined(failures: Seq<ErrorView>) -> Result<(), ErrorView> {
    if failures.len() == 0 {
        Ok(())
    } else if failures.len() == 1 {
        Err(failures[0])
    } else {
        Err(ErrorView::MultipleErrors(all_messages(failures)))
    }
}

/// Whether the commands that are needed are installed, given which of them
/// were found.
pub open spec fn dependencies_met(
    awww_enabled: bool,
    awww_found: bool,
    matugen_enabled: bool,
    dms_found: bool,
) -> Result<(), ErrorView> {
    if awww_enabled && !awww_found {
        Err(ErrorView::CommandNotFound("awww"@))
    } else if matugen_enabled && !dms_found {
        Err(ErrorView::CommandNotFound("dms"@))
    } else {
        Ok(())
    }
}

/// `which::which`: whether an executable of this name is found on the search
/// path. The answer depends on the environment and on the disk.
#[verifier::external_body]
fn is_installed(command: &str) -> bool {
    which::which(command).is_ok()
}

/// The messages that a failure stands for.
fn messages(e: &DmsAwwwError) -> (r: Vec<String>)
    ensures
        texts_of(r@) == messages_of(e@),
{
    match e {
        DmsAwwwError::MultipleErrors(all) => copy_strings(all),
        _ => {
            let mut out: Vec<String> = Vec::new();
            out.push(e.message());
            assert(texts_of(out@) =~= seq![message_of(e@)]);
            out
        },
    }
}

/// What the end of a job means: success where the command ended with exit
/// code 0, and else the failure of its kind. `command` is the name under
/// which the command is reported, `path` the image of the job.
pub fn job_outcome(command: &str, path: &str, report: JobReport) -> (r: Result<(), DmsAwwwError>)
    ensures
        outcome_view(r) == outcome_of(command@, path@, report),
{
    match report {
        JobReport::MissingImage => Err(DmsAwwwError::InvalidWallpaperPath(String::from_str(path))),
        JobReport::NotRun(why) => Err(DmsAwwwError::Io(why)),
        JobReport::Ended(ExitReport::Exited(code)) => {
            if code == 0 {
                Ok(())
            } else {
                Err(DmsAwwwError::CommandFailed(String::from_str(command), code))
            }
        },
        JobReport::Ended(ExitReport::Signaled(signal)) => Err(
            DmsAwwwError::CommandTerminated(String::from_str(command), signal),
        ),
        JobReport::Panicked(how) => {
            let mut message = String::from_str("Task panic: ");
            message.append(how.as_str());
            let mut all: Vec<String> = Vec::new();
            all.push(message);
            assert(texts_of(all@) =~= seq!["Task panic: "@ + how@]);
            Err(DmsAwwwError::MultipleErrors(all))
        },
    }
}

/// What the outcomes of all jobs come to. No failure is success. One
/// failure is returned as it is. Several failures become one aggregate
/// that holds the messages of all, in the order of the outcomes.
pub fn combine(outcomes: Vec<Result<(), DmsAwwwError>>) -> (r: Result<(), DmsAwwwError>)
    ensures
        outcome_view(r) == combined(failures_of(outcome_views(outcomes@))),
{
    let ghost views = outcome_views(outcomes@);
    let mut count: usize = 0;
    let mut first: usize = 0;
    let mut all: Vec<String> = Vec::new();
    let mut i: usize = 0;
    proof {
        assert(views.take(0) =~= Seq::<Result<(), ErrorView>>::empty());
        assert(texts_of(all@) =~= Seq::<Seq<char>>::empty());
    }
    while i < outcomes.len()
        invariant
            views == outcome_views(outcomes@),
            i <= outcomes.len(),
            count <= i,
            count == failures_of(views.take(i as int)).len(),
            texts_of(all@) == all_messages(failures_of(views.take(i as int))),
            count > 0 ==> first < i && views[first as int] == Err::<(), ErrorView>(
                failures_of(views.take(i as int))[0],
            ),
        decreases outcomes.len() - i,
    {
        proof {
            let next = views.take(i + 1);
            assert(next.drop_last() =~= views.take(i as int));
            assert(next.last() == views[i as int]);
        }
        match &outcomes[i] {
            Ok(_) => {},
            Err(e) => {
                let ghost before = failures_of(views.take(i as int));
                let ghost said = texts_of(all@);
                if count == 0 {
                    first = i;
                }
                count += 1;
                let mut own = messages(e);
                all.append(&mut own);
                proof {
                    assert(before.push(e@).drop_last() =~= before);
                    assert(texts_of(all@) =~= said + messages_of(e@));
                }
            },
        }
        i += 1;
    }
    proof {
        assert(views.take(outcomes.len() as int) =~= views);
    }
    if count == 0 {
        Ok(())
    } else if count == 1 {
        let mut outcomes = outcomes;
        let only = outcomes.remove(first);
        only
    } else {
        Err(DmsAwwwError::MultipleErrors(all))
    }
}

/// Whether the commands that are needed are installed, given which of them
/// were found: a command that is in use and was not found is a failure,
/// the one that sets wallpapers first.
pub fn dependency_verdict(
    awww_enabled: bool,
    awww_found: bool,
    matugen_enabled: bool,
    dms_found: bool,
) -> (r: Result<(), DmsAwwwError>)
    ensures
        outcome_view(r) == dependencies_met(awww_enabled, awww_found, matugen_enabled, dms_found),
{
    if awww_enabled && !awww_found {
        Err(DmsAwwwError::CommandNotFound(String::from_str("awww")))
    } else if matugen_enabled && !dms_found {
        Err(DmsAwwwError::CommandNotFound(String::from_str("dms")))
    } else {
        Ok(())
    }
}

impl Executor {
    /// The configuration in use.
    pub closed spec fn config(&self) -> ConfigView {
        self.config@
    }

    /// The monitors that are addressed.
    pub closed spec fn targets(&self) -> Seq<Seq<char>> {
        texts_of(self.monitors@)
    }

    /// An executor for a list of monitors.
    pub fn new(config: Config, monitors: Vec<String>) -> (r: Self)
        ensures
            r.config() == config@,
            r.targets() == texts_of(monitors@),
    {
        Executor { config, monitors }
    }

    /// The monitors that are addressed.
    pub fn monitors(&self) -> (r: &Vec<String>)
        ensures
            texts_of(r@) == self.targets(),
    {
        &self.monitors
    }

    /// Whether the commands that are in use are installed. Nothing is looked
    /// for where neither command is in use.
    pub fn check_dependencies(&self) -> (r: Result<(), DmsAwwwError>)
        ensures
            !self.config().awww_enabled && !self.config().matugen_enabled ==> r is Ok,
            r matches Err(e) ==> (self.config().awww_enabled && e@ == ErrorView::CommandNotFound(
                "awww"@,
            )) || (self.config().matugen_enabled && e@ == ErrorView::CommandNotFound("dms"@)),
    {
        let awww_enabled = self.config.awww_enabled();
        let matugen_enabled = self.config.matugen_enabled();
        let awww_found = if awww_enabled {
            is_installed("awww")
        } else {
            false
        };
        if awww_enabled && !awww_found {
            return dependency_verdict(awww_enabled, awww_found, matugen_enabled, false);
        }
        let dms_found = if matugen_enabled {
            is_installed("dms")
        } else {
            false
        };
        dependency_verdict(awww_enabled, awww_found, matugen_enabled, dms_found)
    }

    /// The jobs that set the wallpapers of a change: for each wallpaper one
    /// job for each of its monitors. There is none where wallpapers are not
    /// set at all.
    pub fn awww_jobs(&self, change: &WallpaperChange) -> (r: Vec<AwwwJob>)
        ensures
            job_views(r@) == if self.config().awww_enabled {
                jobs_of(change@.wallpapers, self.targets())
            } else {
                Seq::empty()
            },
    {
        let mut jobs: Vec<AwwwJob> = Vec::new();
        if !self.config.awww_enabled() {
            assert(job_views(jobs@) =~= Seq::<JobView>::empty());
            return jobs;
        }
        let mut i: usize = 0;
        proof {
            assert(job_views(jobs@) =~= jobs_of(change@.wallpapers.take(0), self.targets()));
        }
        while i < change.wallpapers.len()
            invariant
                i <= change.wallpapers.len(),
                job_views(jobs@) == jobs_of(change@.wallpapers.take(i as int), self.targets()),
            decreases change.wallpapers.len() - i,
        {
            let wallpaper = &change.wallpapers[i];
            let ghost done = job_views(jobs@);
            proof {
                let next = change@.wallpapers.take(i + 1);
                assert(next.drop_last() =~= change@.wallpapers.take(i as int));
                assert(next.last() == wallpaper@);
            }
            match &wallpaper.monitor {
                Some(own) => {
                    jobs.push(AwwwJob { path: wallpaper.path.clone(), monitor: own.clone() });
                    proof {
                        assert(job_views(jobs@) =~= done + jobs_for(wallpaper@, self.targets()));
                    }
                },
                None => {
                    if self.monitors.len() > 0 {
                        let mut j: usize = 0;
                        while j < self.monitors.len()
                            invariant
                                j <= self.monitors.len(),
                                self.monitors.len() > 0,
                                wallpaper@.monitor is None,
                                job_views(jobs@) == done + jobs_for(
                                    wallpaper@,
                                    self.targets(),
                                ).take(j as int),
                            decreases self.monitors.len() - j,
                        {
                            let ghost so_far = job_views(jobs@);
                            jobs.push(
                                AwwwJob {
                                    path: wallpaper.path.clone(),
                                    monitor: self.monitors[j].clone(),
                                },
                            );
                            proof {
                                let all = jobs_for(wallpaper@, self.targets());
                                assert(job_views(jobs@) =~= so_far.push(all[j as int]));
                                assert(all.take(j + 1) =~= all.take(j as int).push(all[j as int]));
                            }
                            j += 1;
                        }
                        proof {
                            let all = jobs_for(wallpaper@, self.targets());
                            assert(all.take(self.monitors.len() as int) =~= all);
                        }
                    } else {
                        jobs.push(
                            AwwwJob {
                                path: wallpaper.path.clone(),
                                monitor: String::from_str("ALL"),
                            },
                        );
                        proof {
                            assert(job_views(jobs@) =~= done + jobs_for(
                                wallpaper@,
                                self.targets(),
                            ));
                        }
                    }
                },
            }
            i += 1;
        }
        proof {
            assert(change@.wallpapers.take(change.wallpapers.len() as int) =~= change@.wallpapers);
        }
        jobs
    }

    /// The arguments of the command that does a job: the configured extra
    /// arguments, then `img -o`, the monitor and the image.
    pub fn awww_args(&self, job: &AwwwJob) -> (r: Vec<String>)
        ensures
            texts_of(r@) == awww_args_of(self.config().extra_args, job@),
    {
        let mut args = copy_strings(&self.config.awww.extra_args);
        let ghost extra = texts_of(args@);
        args.push(String::from_str("img"));
        args.push(String::from_str("-o"));
        args.push(job.monitor.clone());
        args.push(job.path.clone());
        assert(texts_of(args@) =~= extra + seq!["img"@, "-o"@, job@.monitor, job@.path]);
        args
    }

    /// The run that derives the theme of a change, from its first wallpaper.
    /// There is none where the theme is not derived at all; a change without
    /// wallpapers is a failure. `home` is the home directory of the user, if
    /// it is known.
    pub fn matugen_job(&self, change: &WallpaperChange, home: Option<&str>) -> (r: Result<
        Option<MatugenJob>,
        DmsAwwwError,
    >)
        ensures
            match r {
                Ok(None) => !self.config().matugen_enabled,
                Ok(Some(job)) => self.config().matugen_enabled && change@.wallpapers.len() > 0
                    && job.path@ == change@.wallpapers[0].path && texts_of(job.args@)
                    == matugen_args_of(
                    self.config(),
                    match home {
                        Some(dir) => Some(dir@),
                        None => None,
                    },
                    job.path@,
                    change@.is_light_mode,
                ),
                Err(e) => self.config().matugen_enabled && change@.wallpapers.len() == 0 && e@
                    == no_wallpapers(),
            },
    {
        if !self.config.matugen_enabled() {
            return Ok(None);
        }
        if change.wallpapers.len() == 0 {
            return Err(DmsAwwwError::InvalidWallpaperPath(String::from_str("No wallpapers")));
        }
        let path = change.wallpapers[0].path.clone();
        let mode = if change.is_light_mode {
            "light"
        } else {
            "dark"
        };
        let config_dir = match home {
            Some(dir) => {
                let mut joined = String::from_str(dir);
                joined.append("/.config");
                joined
            },
            None => String::from_str("~/.config"),
        };
        let mut args: Vec<String> = Vec::new();
        args.push(String::from_str("matugen"));
        args.push(String::from_str("queue"));
        args.push(String::from_str("--state-dir"));
        args.push(self.config.dms.cache_dir.clone());
        args.push(String::from_str("--shell-dir"));
        args.push(self.config.matugen.shell_dir.clone());
        args.push(String::from_str("--config-dir"));
        args.push(config_dir);
        args.push(String::from_str("--kind"));
        args.push(String::from_str("image"));
        args.push(String::from_str("--value"));
        args.push(path.clone());
        args.push(String::from_str("--mode"));
        args.push(String::from_str(mode));
        args.push(String::from_str("--matugen-type"));
        args.push(self.config.matugen.default_scheme.clone());
        args.push(String::from_str("--wait"));
        proof {
            assert(views_of(change.wallpapers@)[0] == change.wallpapers@[0]@);
            assert(texts_of(args@) =~= matugen_args_of(
                self.config(),
                match home {
                    Some(dir) => Some(dir@),
                    None => None,
                },
                path@,
                change@.is_light_mode,
            ));
        }
        Ok(Some(MatugenJob { path, args }))
    }
}

/// The failures among outcomes that all succeeded are none, so the whole
/// succeeds.
pub proof fn law_all_succeed(outcomes: Seq<Result<(), ErrorView>>)
    requires
        forall|i: int| 0 <= i < outcomes.len() ==> (#[trigger] outcomes[i]) is Ok,
    ensures
        combined(failures_of(outcomes)) is Ok,
    decreases outcomes.len(),
{
    if outcomes.len() > 0 {
        assert forall|i: int| 0 <= i < outcomes.drop_last().len() implies (
        #[trigger] outcomes.drop_last()[i]) is Ok by {
            assert(outcomes.drop_last()[i] == outcomes[i]);
        }
        law_all_succeed(outcomes.drop_last());
    }
}

/// Where exactly one outcome is a failure, the whole fails with that very
/// failure, whatever its kind.
pub proof fn law_single_failure(outcomes: Seq<Result<(), ErrorView>>, at: int)
    requires
        0 <= at < outcomes.len(),
        outcomes[at] is Err,
        forall|i: int| 0 <= i < outcomes.len() && i != at ==> (#[trigger] outcomes[i]) is Ok,
    ensures
        combined(failures_of(outcomes)) == Err::<(), ErrorView>(outcomes[at]->Err_0),
    decreases outcomes.len(),
{
    let front = outcomes.drop_last();
    if at == outcomes.len() - 1 {
        assert forall|i: int| 0 <= i < front.len() implies (#[trigger] front[i]) is Ok by {
            assert(front[i] == outcomes[i]);
        }
        lemma_no_failures(front);
        assert(failures_of(outcomes) =~= seq![outcomes[at]->Err_0]);
    } else {
        assert(front[at] == outcomes[at]);
        assert forall|i: int| 0 <= i < front.len() && i != at implies (#[trigger] front[i])
            is Ok by {
            assert(front[i] == outcomes[i]);
        }
        law_single_failure(front, at);
        assert(outcomes.last() == outcomes[outcomes.len() - 1]);
        lemma_failures_count(front);
    }
}

/// Outcomes that all succeeded hold no failure.
pub proof fn lemma_no_failures(outcomes: Seq<Result<(), ErrorView>>)
    requires
        forall|i: int| 0 <= i < outcomes.len() ==> (#[trigger] outcomes[i]) is Ok,
    ensures
        failures_of(outcomes) == Seq::<ErrorView>::empty(),
    decreases outcomes.len(),
{
    if outcomes.len() > 0 {
        assert forall|i: int| 0 <= i < outcomes.drop_last().len() implies (
        #[trigger] outcomes.drop_last()[i]) is Ok by {
            assert(outcomes.drop_last()[i] == outcomes[i]);
        }
        lemma_no_failures(outcomes.drop_last());
        assert(outcomes.last() == outcomes[outcomes.len() - 1]);
    }
}

/// There are as many failures as outcomes that failed, and each failure is
/// that of an outcome.
pub proof fn lemma_failures_count(outcomes: Seq<Result<(), ErrorView>>)
    ensures
        failures_of(outcomes).len() <= outcomes.len(),
        forall|k: int|
            0 <= k < failures_of(outcomes).len() ==> outcomes.contains(
                Err::<(), ErrorView>(#[trigger] failures_of(outcomes)[k]),
            ),
        forall|i: int|
            0 <= i < outcomes.len() && (#[trigger] outcomes[i]) is Err ==> failures_of(
                outcomes,
            ).contains(outcomes[i]->Err_0),
    decreases outcomes.len(),
{
    if outcomes.len() > 0 {
        let front = outcomes.drop_last();
        lemma_failures_count(front);
        let all = failures_of(outcomes);
        assert forall|k: int| 0 <= k < all.len() implies outcomes.contains(
            Err::<(), ErrorView>(#[trigger] all[k]),
        ) by {
            if k < failures_of(front).len() {
                let i = choose|i: int|
                    0 <= i < front.len() && front[i] == Err::<(), ErrorView>(failures_of(front)[k]);
                assert(outcomes[i] == front[i]);
            } else {
                assert(outcomes[outcomes.len() - 1] == Err::<(), ErrorView>(all[k]));
            }
        }
        assert forall|i: int| 0 <= i < outcomes.len() && (#[trigger] outcomes[i])
            is Err implies all.contains(outcomes[i]->Err_0) by {
            if i < front.len() {
                assert(front[i] == outcomes[i]);
                let k = choose|k: int|
                    0 <= k < failures_of(front).len() && failures_of(front)[k]
                        == outcomes[i]->Err_0;
                assert(all[k] == outcomes[i]->Err_0);
            } else {
                assert(all[all.len() - 1] == outcomes[i]->Err_0);
            }
        }
    }
}

/// The messages of a list of failures hold the messages of each of them.
pub proof fn lemma_messages_kept(failures: Seq<ErrorView>, k: int, m: int)
    requires
        0 <= k < failures.len(),
        0 <= m < messages_of(failures[k]).len(),
    ensures
        all_messages(failures).contains(messages_of(failures[k])[m]),
    decreases failures.len(),
{
    let front = all_messages(failures.drop_last());
    let last = messages_of(failures.last());
    if k == failures.len() - 1 {
        assert((front + last)[front.len() + m] == last[m]);
    } else {
        assert(failures.drop_last()[k] == failures[k]);
        lemma_messages_kept(failures.drop_last(), k, m);
        let at = choose|at: int| 0 <= at < front.len() && front[at] == messages_of(failures[k])[m];
        assert((front + last)[at] == front[at]);
    }
}

/// Where two or more outcomes are failures, the whole fails with an
/// aggregate, and the aggregate holds the message of every failure.
pub proof fn law_many_failures(outcomes: Seq<Result<(), ErrorView>>, i: int)
    requires
        failures_of(outcomes).len() >= 2,
        0 <= i < outcomes.len(),
        outcomes[i] is Err,
    ensures
        combined(failures_of(outcomes)) matches Err(ErrorView::MultipleErrors(all)) && forall|
            m: int,
        |
            0 <= m < messages_of(outcomes[i]->Err_0).len() ==> all.contains(
                #[trigger] messages_of(outcomes[i]->Err_0)[m],
            ),
{
    lemma_failures_count(outcomes);
    let failures = failures_of(outcomes);
    let k = choose|k: int| 0 <= k < failures.len() && failures[k] == outcomes[i]->Err_0;
    assert forall|m: int| 0 <= m < messages_of(outcomes[i]->Err_0).len() implies all_messages(
        failures,
    ).contains(#[trigger] messages_of(outcomes[i]->Err_0)[m]) by {
        lemma_messages_kept(failures, k, m);
    }
}

} // verus!
