use vstd::prelude::*;
use crate::accounts::ApplicationAddress;
use crate::key::Key;
use crate::state::{Admin, ApplicationState, SupportCoin, TaskApplication, TaskInfo};

verus! {

/// The records of the program, as contracts speak of them.
pub ghost struct TraderState {
    pub program_id: Key,
    pub admin: Option<Admin>,
    /// The supported coin mints, once the list has been created.
    pub coin_mints: Option<Seq<Key>>,
    pub tasks: Seq<TaskInfo>,
    pub applications: Seq<TaskApplication>,
}

/// Whether `a` is the application stored at address `addr`.
pub open spec fn at_address(a: TaskApplication, addr: ApplicationAddress) -> bool {
    a.task_id == addr.task_id && a.applicant == addr.applicant
}

impl TraderState {
    pub open spec fn has_task(self, task_id: u64) -> bool {
        exists|i: int| 0 <= i < self.tasks.len() && #[trigger] self.tasks[i].task_id == task_id
    }

    pub open spec fn task_index(self, task_id: u64) -> int {
        choose|i: int| 0 <= i < self.tasks.len() && #[trigger] self.tasks[i].task_id == task_id
    }

    /// The task with id `task_id`; meaningful when `has_task(task_id)`.
    pub open spec fn task(self, task_id: u64) -> TaskInfo {
        self.tasks[self.task_index(task_id)]
    }

    pub open spec fn has_application(self, addr: ApplicationAddress) -> bool {
        exists|i: int| 0 <= i < self.applications.len() && at_address(#[trigger] self.applications[i], addr)
    }

    pub open spec fn application_index(self, addr: ApplicationAddress) -> int {
        choose|i: int| 0 <= i < self.applications.len() && at_address(#[trigger] self.applications[i], addr)
    }

    /// The application at `addr`; meaningful when `has_application(addr)`.
    pub open spec fn application(self, addr: ApplicationAddress) -> TaskApplication {
        self.applications[self.application_index(addr)]
    }

    /// Every application belongs to a task that exists.
    pub open spec fn applications_have_tasks(self) -> bool {
        forall|i: int| 0 <= i < self.applications.len() ==> self.has_task(#[trigger] self.applications[i].task_id)
    }

    /// Each task id and each application address names one record at most.
    pub open spec fn wf(self) -> bool {
        &&& forall|i: int, j: int|
            0 <= i < j < self.tasks.len() ==> #[trigger] self.tasks[i].task_id != #[trigger] self.tasks[j].task_id
        &&& forall|i: int, j: int|
            0 <= i < j < self.applications.len() ==> !at_address(
                #[trigger] self.applications[i],
                ApplicationAddress { task_id: #[trigger] self.applications[j].task_id, applicant: self.applications[j].applicant },
            )
    }
}

/// The program's records: the admin record, the list of supported coins, the
/// tasks and the applications. Each instruction takes it by reference.
pub struct TaskTrader {
    program_id: Key,
    admin: Option<Admin>,
    support_coin: Option<SupportCoin>,
    tasks: Vec<TaskInfo>,
    applications: Vec<TaskApplication>,
}

impl View for TaskTrader {
    type V = TraderState;

    closed spec fn view(&self) -> TraderState {
        TraderState {
            program_id: self.program_id,
            admin: self.admin,
            coin_mints: match self.support_coin {
                Some(s) => Some(s@),
                None => None,
            },
            tasks: self.tasks@,
            applications: self.applications@,
        }
    }
}

impl TaskTrader {
    pub open spec fn wf(&self) -> bool {
        self@.wf()
    }

    /// A program with no records yet, deployed at `program_id`.
    pub fn new(program_id: Key) -> (r: TaskTrader)
        ensures
            r.wf(),
            r@ == (TraderState {
                program_id,
                admin: None,
                coin_mints: None,
                tasks: Seq::empty(),
                applications: Seq::empty(),
            }),
    {
        let r = TaskTrader {
            program_id,
            admin: None,
            support_coin: None,
            tasks: Vec::new(),
            applications: Vec::new(),
        };
        assert(r@.tasks =~= Seq::empty());
        assert(r@.applications =~= Seq::empty());
        r
    }

    /// Rebuilds the records of a program from storage, or from the part of
    /// it that an instruction reads; `None` when a task id or an application
    /// address repeats.
    pub fn from_records(
        program_id: Key,
        admin: Option<Admin>,
        coin_mints: Option<Vec<Key>>,
        tasks: Vec<TaskInfo>,
        applications: Vec<TaskApplication>,
    ) -> (r: Option<TaskTrader>)
        ensures
            ({
                let s = TraderState {
                    program_id,
                    admin,
                    coin_mints: match coin_mints {
                        Some(v) => Some(v@),
                        None => None,
                    },
                    tasks: tasks@,
                    applications: applications@,
                };
                &&& (r is Some <==> s.wf())
                &&& (r matches Some(t) ==> t@ == s)
            }),
    {
        let support_coin = match coin_mints {
            Some(v) => Some(SupportCoin { coin_mints: v }),
            None => None,
        };
        let t = TaskTrader { program_id, admin, support_coin, tasks, applications };
        if t.tasks_unique() && t.applications_unique() {
            Some(t)
        } else {
            None
        }
    }

    fn tasks_unique(&self) -> (r: bool)
        ensures
            r == (forall|i: int, j: int|
                0 <= i < j < self@.tasks.len() ==> #[trigger] self@.tasks[i].task_id != #[trigger] self@.tasks[j].task_id),
    {
        let n = self.tasks.len();
        let mut j: usize = 0;
        while j < n
            invariant
                n == self.tasks@.len(),
                0 <= j <= n,
                forall|a: int, b: int| 0 <= a < b < j ==> #[trigger] self@.tasks[a].task_id != #[trigger] self@.tasks[b].task_id,
            decreases n - j,
        {
            let mut i: usize = 0;
            while i < j
                invariant
                    n == self.tasks@.len(),
                    0 <= i <= j < n,
                    forall|a: int, b: int| 0 <= a < b < j ==> #[trigger] self@.tasks[a].task_id != #[trigger] self@.tasks[b].task_id,
                    forall|a: int| 0 <= a < i ==> #[trigger] self@.tasks[a].task_id != self@.tasks[j as int].task_id,
                decreases j - i,
            {
                if self.tasks[i].task_id == self.tasks[j].task_id {
                    assert(self@.tasks[i as int].task_id == self@.tasks[j as int].task_id);
                    return false;
                }
                i = i + 1;
            }
            j = j + 1;
        }
        true
    }

    fn applications_unique(&self) -> (r: bool)
        ensures
            r == (forall|i: int, j: int|
                0 <= i < j < self@.applications.len() ==> !at_address(
                    #[trigger] self@.applications[i],
                    ApplicationAddress { task_id: #[trigger] self@.applications[j].task_id, applicant: self@.applications[j].applicant },
                )),
    {
        let n = self.applications.len();
        let mut j: usize = 0;
        while j < n
            invariant
                n == self.applications@.len(),
                0 <= j <= n,
                forall|a: int, b: int| 0 <= a < b < j ==> !at_address(
                    #[trigger] self@.applications[a],
                    ApplicationAddress { task_id: #[trigger] self@.applications[b].task_id, applicant: self@.applications[b].applicant },
                ),
            decreases n - j,
        {
            let addr = ApplicationAddress { task_id: self.applications[j].task_id, applicant: self.applications[j].applicant };
            let mut i: usize = 0;
            while i < j
                invariant
                    n == self.applications@.len(),
                    0 <= i <= j < n,
                    addr == (ApplicationAddress { task_id: self@.applications[j as int].task_id, applicant: self@.applications[j as int].applicant }),
                    forall|a: int, b: int| 0 <= a < b < j ==> !at_address(
                        #[trigger] self@.applications[a],
                        ApplicationAddress { task_id: #[trigger] self@.applications[b].task_id, applicant: self@.applications[b].applicant },
                    ),
                    forall|a: int| 0 <= a < i ==> !at_address(#[trigger] self@.applications[a], addr),
                decreases j - i,
            {
                let other = &self.applications[i];
                if other.task_id == addr.task_id && other.applicant.same_as(&addr.applicant) {
                    assert(at_address(self@.applications[i as int], addr));
                    return false;
                }
                i = i + 1;
            }
            j = j + 1;
        }
        true
    }

    pub fn program_id(&self) -> (r: Key)
        ensures
            r == self@.program_id,
    {
        self.program_id
    }

    pub fn admin(&self) -> (r: Option<Admin>)
        ensures
            r == self@.admin,
    {
        self.admin
    }

    /// The supported coin mints, if the list has been created.
    pub fn coin_mints(&self) -> (r: Option<&Vec<Key>>)
        ensures
            match r {
                Some(v) => self@.coin_mints == Some(v@),
                None => self@.coin_mints is None,
            },
    {
        match &self.support_coin {
            Some(s) => Some(&s.coin_mints),
            None => None,
        }
    }

    /// Where the task `task_id` is stored, if it exists.
    pub(crate) fn find_task(&self, task_id: u64) -> (r: Option<usize>)
        requires
            self.wf(),
        ensures
            match r {
                Some(i) => self@.has_task(task_id) && i == self@.task_index(task_id),
                None => !self@.has_task(task_id),
            },
    {
        let mut i: usize = 0;
        while i < self.tasks.len()
            invariant
                self.wf(),
                0 <= i <= self.tasks@.len(),
                forall|j: int| 0 <= j < i ==> #[trigger] self.tasks@[j].task_id != task_id,
            decreases self.tasks@.len() - i,
        {
            if self.tasks[i].task_id == task_id {
                assert(self@.tasks[i as int].task_id == task_id);
                assert(self@.has_task(task_id));
                let ghost k = self@.task_index(task_id);
                assert(0 <= k < self@.tasks.len() && self@.tasks[k].task_id == task_id);
                assert(k == i as int) by {
                    if k < i as int {
                        assert(self@.tasks[k].task_id != self@.tasks[i as int].task_id);
                    } else if k > i as int {
                        assert(self@.tasks[i as int].task_id != self@.tasks[k].task_id);
                    }
                }
                return Some(i);
            }
            i = i + 1;
        }
        None
    }

    /// The task `task_id`, if it exists.
    pub fn task(&self, task_id: u64) -> (r: Option<TaskInfo>)
        requires
            self.wf(),
        ensures
            match r {
                Some(t) => self@.has_task(task_id) && t == self@.task(task_id),
                None => !self@.has_task(task_id),
            },
    {
        match self.find_task(task_id) {
            Some(i) => Some(self.tasks[i]),
            None => None,
        }
    }

    /// Where the application at `addr` is stored, if it exists.
    pub(crate) fn find_application(&self, addr: &ApplicationAddress) -> (r: Option<usize>)
        requires
            self.wf(),
        ensures
            match r {
                Some(i) => self@.has_application(*addr) && i == self@.application_index(*addr),
                None => !self@.has_application(*addr),
            },
    {
        let mut i: usize = 0;
        while i < self.applications.len()
            invariant
                self.wf(),
                0 <= i <= self.applications@.len(),
                forall|j: int| 0 <= j < i ==> !at_address(#[trigger] self.applications@[j], *addr),
            decreases self.applications@.len() - i,
        {
            let a = &self.applications[i];
            if a.task_id == addr.task_id && a.applicant.same_as(&addr.applicant) {
                assert(at_address(self@.applications[i as int], *addr));
                assert(self@.has_application(*addr));
                let ghost k = self@.application_index(*addr);
                let ghost ai = self@.applications[i as int];
                let ghost ak = self@.applications[k];
                assert(0 <= k < self@.applications.len() && at_address(ak, *addr));
                assert(k == i as int) by {
                    if k < i as int {
                        assert(!at_address(ak, ApplicationAddress { task_id: ai.task_id, applicant: ai.applicant }));
                    } else if k > i as int {
                        assert(!at_address(ai, ApplicationAddress { task_id: ak.task_id, applicant: ak.applicant }));
                    }
                }
                return Some(i);
            }
            i = i + 1;
        }
        None
    }

    /// The application at `addr`, if it exists.
    pub fn application(&self, addr: &ApplicationAddress) -> (r: Option<TaskApplication>)
        requires
            self.wf(),
        ensures
            match r {
                Some(a) => self@.has_application(*addr) && a == self@.application(*addr),
                None => !self@.has_application(*addr),
            },
    {
        match self.find_application(addr) {
            Some(i) => Some(self.applications[i]),
            None => None,
        }
    }

    pub(crate) fn application_at(&self, i: usize) -> (r: TaskApplication)
        requires
            i < self@.applications.len(),
        ensures
            r == self@.applications[i as int],
    {
        self.applications[i]
    }

    pub(crate) fn set_admin(&mut self, admin: Admin)
        requires
            old(self).wf(),
        ensures
            final(self).wf(),
            final(self)@ == (TraderState { admin: Some(admin), ..old(self)@ }),
    {
        self.admin = Some(admin);
    }

    pub(crate) fn set_coin_mints(&mut self, coin_mints: Vec<Key>)
        requires
            old(self).wf(),
        ensures
            final(self).wf(),
            final(self)@ == (TraderState { coin_mints: Some(coin_mints@), ..old(self)@ }),
    {
        self.support_coin = Some(SupportCoin { coin_mints });
    }

    pub(crate) fn push_task(&mut self, task: TaskInfo)
        requires
            old(self).wf(),
            !old(self)@.has_task(task.task_id),
        ensures
            final(self).wf(),
            final(self)@ == (TraderState { tasks: old(self)@.tasks.push(task), ..old(self)@ }),
    {
        self.tasks.push(task);
    }

    pub(crate) fn push_application(&mut self, application: TaskApplication)
        requires
            old(self).wf(),
            !old(self)@.has_application(ApplicationAddress { task_id: application.task_id, applicant: application.applicant }),
        ensures
            final(self).wf(),
            final(self)@ == (TraderState { applications: old(self)@.applications.push(application), ..old(self)@ }),
    {
        self.applications.push(application);
        let ghost s = self@;
        let ghost o = old(self)@;
        assert forall|i: int, j: int| 0 <= i < j < s.applications.len() implies !at_address(
            #[trigger] s.applications[i],
            ApplicationAddress { task_id: #[trigger] s.applications[j].task_id, applicant: s.applications[j].applicant },
        ) by {
            if j == s.applications.len() - 1 {
                if at_address(s.applications[i], ApplicationAddress { task_id: application.task_id, applicant: application.applicant }) {
                    assert(o.applications[i] == s.applications[i]);
                }
            }
        }
    }

    /// Sets the state of the application stored at index `i`.
    pub(crate) fn set_application_state(&mut self, i: usize, state: ApplicationState)
        requires
            old(self).wf(),
            i < old(self)@.applications.len(),
        ensures
            final(self).wf(),
            final(self)@ == (TraderState {
                applications: old(self)@.applications.update(
                    i as int,
                    TaskApplication { state, ..old(self)@.applications[i as int] },
                ),
                ..old(self)@
            }),
    {
        let mut a = self.applications[i];
        a.state = state;
        self.applications.set(i, a);
        let ghost s = self@;
        let ghost o = old(self)@;
        assert forall|k: int, j: int| 0 <= k < j < s.applications.len() implies !at_address(
            #[trigger] s.applications[k],
            ApplicationAddress { task_id: #[trigger] s.applications[j].task_id, applicant: s.applications[j].applicant },
        ) by {
            assert(at_address(s.applications[k], ApplicationAddress { task_id: o.applications[k].task_id, applicant: o.applications[k].applicant }));
            assert(!at_address(o.applications[k], ApplicationAddress { task_id: o.applications[j].task_id, applicant: o.applications[j].applicant }));
        }
    }
}

} // verus!
