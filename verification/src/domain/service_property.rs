//! The extended properties of a service: what it runs, as whom, and within
//! which limits.
use vstd::prelude::*;
use vstd::string::*;

verus! {

/// The views of the texts in `texts`, in order.
pub open spec fn text_views(texts: Seq<String>) -> Seq<Seq<char>> {
    texts.map_values(|text: String| text@)
}

/// A copy of `texts`.
pub fn clone_texts(texts: &Vec<String>) -> (copy: Vec<String>)
    ensures
        text_views(copy@) == text_views(texts@),
{
    let mut copy: Vec<String> = Vec::new();
    let mut i: usize = 0;
    while i < texts.len()
        invariant
            i <= texts@.len(),
            copy@.len() == i,
            text_views(copy@) == text_views(texts@.take(i as int)),
        decreases texts@.len() - i,
    {
        let ghost before = copy@;
        let text = texts[i].clone();
        copy.push(text);
        assert forall|k: int| 0 <= k <= i implies #[trigger] text_views(copy@)[k] == texts@[k]@ by {
            if k < i {
                assert(text_views(before)[k] == text_views(texts@.take(i as int))[k]);
            }
        }
        assert(text_views(copy@) =~= text_views(texts@.take(i + 1)));
        i = i + 1;
    }
    assert(texts@.take(texts@.len() as int) =~= texts@);
    copy
}

/// One command line of a service with the outcome of its last run.
#[derive(Debug, PartialEq, Eq)]
pub struct ExecCommand {
    pub path: String,
    pub argv: Vec<String>,
    pub ignore_errors: bool,
    pub start_time: u64,
    pub stop_time: u64,
    pub pid: u32,
    pub code: i32,
    pub status: i32,
}

/// An [`ExecCommand`] as a mathematical value.
pub struct ExecCommandView {
    pub path: Seq<char>,
    pub argv: Seq<Seq<char>>,
    pub ignore_errors: bool,
    pub start_time: u64,
    pub stop_time: u64,
    pub pid: u32,
    pub code: i32,
    pub status: i32,
}

impl View for ExecCommand {
    type V = ExecCommandView;

    open spec fn view(&self) -> ExecCommandView {
        ExecCommandView {
            path: self.path@,
            argv: text_views(self.argv@),
            ignore_errors: self.ignore_errors,
            start_time: self.start_time,
            stop_time: self.stop_time,
            pid: self.pid,
            code: self.code,
            status: self.status,
        }
    }
}

impl Clone for ExecCommand {
    fn clone(&self) -> (command: Self)
        ensures
            command@ == self@,
    {
        ExecCommand {
            path: self.path.clone(),
            argv: clone_texts(&self.argv),
            ignore_errors: self.ignore_errors,
            start_time: self.start_time,
            stop_time: self.stop_time,
            pid: self.pid,
            code: self.code,
            status: self.status,
        }
    }
}

/// The views of the commands in `commands`, in order.
pub open spec fn command_views(commands: Seq<ExecCommand>) -> Seq<ExecCommandView> {
    commands.map_values(|command: ExecCommand| command@)
}

/// A copy of `commands`.
pub fn clone_commands(commands: &Vec<ExecCommand>) -> (copy: Vec<ExecCommand>)
    ensures
        command_views(copy@) == command_views(commands@),
{
    let mut copy: Vec<ExecCommand> = Vec::new();
    let mut i: usize = 0;
    while i < commands.len()
        invariant
            i <= commands@.len(),
            copy@.len() == i,
            command_views(copy@) == command_views(commands@.take(i as int)),
        decreases commands@.len() - i,
    {
        let ghost before = copy@;
        let command = commands[i].clone();
        copy.push(command);
        assert forall|k: int| 0 <= k <= i implies #[trigger] command_views(copy@)[k]
            == commands@[k]@ by {
            if k < i {
                assert(command_views(before)[k] == command_views(commands@.take(i as int))[k]);
            }
        }
        assert(command_views(copy@) =~= command_views(commands@.take(i + 1)));
        i = i + 1;
    }
    assert(commands@.take(commands@.len() as int) =~= commands@);
    copy
}

/// The extended properties of one service.
#[derive(Debug, PartialEq, Eq)]
pub struct ServiceProperty {
    pub exec_start: Vec<ExecCommand>,
    pub exec_start_pre: Vec<ExecCommand>,
    pub exec_start_post: Vec<ExecCommand>,
    pub exec_stop: Vec<ExecCommand>,
    pub exec_stop_post: Vec<ExecCommand>,
    pub exec_main_pid: u32,
    pub exec_main_start_timestamp: u64,
    pub exec_main_exit_timestamp: u64,
    pub exec_main_code: i32,
    pub exec_main_status: i32,
    pub main_pid: u32,
    pub control_pid: u32,
    pub restart: String,
    pub restart_usec: u64,
    pub status_text: String,
    pub result: String,
    pub user: String,
    pub group: String,
    pub limit_cpu: u64,
    pub limit_nofile: u64,
    pub limit_nproc: u64,
    pub limit_memlock: u64,
    pub memory_limit: u64,
    pub cpu_shares: u64,
}

/// A [`ServiceProperty`] as a mathematical value.
pub struct ServicePropertyView {
    pub exec_start: Seq<ExecCommandView>,
    pub exec_start_pre: Seq<ExecCommandView>,
    pub exec_start_post: Seq<ExecCommandView>,
    pub exec_stop: Seq<ExecCommandView>,
    pub exec_stop_post: Seq<ExecCommandView>,
    pub exec_main_pid: u32,
    pub exec_main_start_timestamp: u64,
    pub exec_main_exit_timestamp: u64,
    pub exec_main_code: i32,
    pub exec_main_status: i32,
    pub main_pid: u32,
    pub control_pid: u32,
    pub restart: Seq<char>,
    pub restart_usec: u64,
    pub status_text: Seq<char>,
    pub result: Seq<char>,
    pub user: Seq<char>,
    pub group: Seq<char>,
    pub limit_cpu: u64,
    pub limit_nofile: u64,
    pub limit_nproc: u64,
    pub limit_memlock: u64,
    pub memory_limit: u64,
    pub cpu_shares: u64,
}

impl View for ServiceProperty {
    type V = ServicePropertyView;

    open spec fn view(&self) -> ServicePropertyView {
        ServicePropertyView {
            exec_start: command_views(self.exec_start@),
            exec_start_pre: command_views(self.exec_start_pre@),
            exec_start_post: command_views(self.exec_start_post@),
            exec_stop: command_views(self.exec_stop@),
            exec_stop_post: command_views(self.exec_stop_post@),
            exec_main_pid: self.exec_main_pid,
            exec_main_start_timestamp: self.exec_main_start_timestamp,
            exec_main_exit_timestamp: self.exec_main_exit_timestamp,
            exec_main_code: self.exec_main_code,
            exec_main_status: self.exec_main_status,
            main_pid: self.main_pid,
            control_pid: self.control_pid,
            restart: self.restart@,
            restart_usec: self.restart_usec,
            status_text: self.status_text@,
            result: self.result@,
            user: self.user@,
            group: self.group@,
            limit_cpu: self.limit_cpu,
            limit_nofile: self.limit_nofile,
            limit_nproc: self.limit_nproc,
            limit_memlock: self.limit_memlock,
            memory_limit: self.memory_limit,
            cpu_shares: self.cpu_shares,
        }
    }
}

impl ServiceProperty {
    /// The bundle made of the given values, each in the field of its name.
    pub fn new(
        exec_start: Vec<ExecCommand>,
        exec_start_pre: Vec<ExecCommand>,
        exec_start_post: Vec<ExecCommand>,
        exec_stop: Vec<ExecCommand>,
        exec_stop_post: Vec<ExecCommand>,
        exec_main_pid: u32,
        exec_main_start_timestamp: u64,
        exec_main_exit_timestamp: u64,
        exec_main_code: i32,
        exec_main_status: i32,
        main_pid: u32,
        control_pid: u32,
        restart: String,
        restart_usec: u64,
        status_text: String,
        result: String,
        user: String,
        group: String,
        limit_cpu: u64,
        limit_nofile: u64,
        limit_nproc: u64,
        limit_memlock: u64,
        memory_limit: u64,
        cpu_shares: u64,
    ) -> (property: Self)
        ensures
            property == (ServiceProperty {
                exec_start,
                exec_start_pre,
                exec_start_post,
                exec_stop,
                exec_stop_post,
                exec_main_pid,
                exec_main_start_timestamp,
                exec_main_exit_timestamp,
                exec_main_code,
                exec_main_status,
                main_pid,
                control_pid,
                restart,
                restart_usec,
                status_text,
                result,
                user,
                group,
                limit_cpu,
                limit_nofile,
                limit_nproc,
                limit_memlock,
                memory_limit,
                cpu_shares,
            }),
    {
        ServiceProperty {
            exec_start,
            exec_start_pre,
            exec_start_post,
            exec_stop,
            exec_stop_post,
            exec_main_pid,
            exec_main_start_timestamp,
            exec_main_exit_timestamp,
            exec_main_code,
            exec_main_status,
            main_pid,
            control_pid,
            restart,
            restart_usec,
            status_text,
            result,
            user,
            group,
            limit_cpu,
            limit_nofile,
            limit_nproc,
            limit_memlock,
            memory_limit,
            cpu_shares,
        }
    }
}

impl Clone for ServiceProperty {
    fn clone(&self) -> (property: Self)
        ensures
            property@ == self@,
    {
        ServiceProperty {
            exec_start: clone_commands(&self.exec_start),
            exec_start_pre: clone_commands(&self.exec_start_pre),
            exec_start_post: clone_commands(&self.exec_start_post),
            exec_stop: clone_commands(&self.exec_stop),
            exec_stop_post: clone_commands(&self.exec_stop_post),
            exec_main_pid: self.exec_main_pid,
            exec_main_start_timestamp: self.exec_main_start_timestamp,
            exec_main_exit_timestamp: self.exec_main_exit_timestamp,
            exec_main_code: self.exec_main_code,
            exec_main_status: self.exec_main_status,
            main_pid: self.main_pid,
            control_pid: self.control_pid,
            restart: self.restart.clone(),
            restart_usec: self.restart_usec,
            status_text: self.status_text.clone(),
            result: self.result.clone(),
            user: self.user.clone(),
            group: self.group.clone(),
            limit_cpu: self.limit_cpu,
            limit_nofile: self.limit_nofile,
            limit_nproc: self.limit_nproc,
            limit_memlock: self.limit_memlock,
            memory_limit: self.memory_limit,
            cpu_shares: self.cpu_shares,
        }
    }
}

} // verus!
