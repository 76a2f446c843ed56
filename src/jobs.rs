use vstd::prelude::*;

verus! {

/// A registered recurring job, by name and cron schedule.
pub struct JobEntry {
    pub name: Seq<char>,
    pub schedule: Seq<char>,
}

/// A named recurring job as registered.
pub struct JobSpec {
    pub name: String,
    pub schedule: String,
}

/// Why a job could not be registered.
#[derive(Clone, Copy, Debug, PartialEq, Eq, Structural)]
pub enum SchedulerError {
    /// A job of that name is registered already; it has to be cancelled first.
    DuplicateName,
}

pub open spec fn job_named(jobs: Seq<JobEntry>, name: Seq<char>) -> bool {
    exists|i: int| 0 <= i < jobs.len() && #[trigger] jobs[i].name == name
}

/// The table of named recurring jobs, in order of registration. Names are unique.
pub struct JobRegistry {
    jobs: Vec<JobSpec>,
}

impl View for JobRegistry {
    type V = Seq<JobEntry>;

    closed spec fn view(&self) -> Seq<JobEntry> {
        self.jobs@.map_values(|j: JobSpec| JobEntry { name: j.name@, schedule: j.schedule@ })
    }
}

impl JobRegistry {
    /// No two jobs share a name.
    pub open spec fn wf(&self) -> bool {
        forall|i: int, j: int|
            0 <= i < j < self@.len() ==> #[trigger] self@[i].name != #[trigger] self@[j].name
    }

    /// An empty table.
    pub fn new() -> (r: JobRegistry)
        ensures
            r@ == Seq::<JobEntry>::empty(),
            r.wf(),
    {
        let r = JobRegistry { jobs: Vec::new() };
        assert(r@ =~= Seq::<JobEntry>::empty());
        r
    }

    /// Number of registered jobs.
    pub fn len(&self) -> (r: usize)
        ensures
            r == self@.len(),
    {
        self.jobs.len()
    }

    fn position(&self, name: &String) -> (r: Option<usize>)
        ensures
            r is None <==> !job_named(self@, name@),
            r matches Some(i) ==> i < self@.len() && self@[i as int].name == name@,
    {
        let mut i: usize = 0;
        while i < self.jobs.len()
            invariant
                i <= self@.len(),
                forall|j: int| 0 <= j < i ==> #[trigger] self@[j].name != name@,
            decreases self@.len() - i,
        {
            if self.jobs[i].name == *name {
                assert(self@[i as int].name == name@);
                return Some(i);
            }
            i = i + 1;
        }
        None
    }

    /// Whether a job of that name is registered.
    pub fn contains(&self, name: &String) -> (r: bool)
        ensures
            r == job_named(self@, name@),
    {
        self.position(name).is_some()
    }

    /// Registers a job; refused when a job of that name is registered already.
    pub fn add(&mut self, name: String, schedule: String) -> (r: Result<(), SchedulerError>)
        requires
            old(self).wf(),
        ensures
            final(self).wf(),
            job_named(old(self)@, name@) ==> r == Err::<(), SchedulerError>(
                SchedulerError::DuplicateName,
            ) && final(self)@ == old(self)@,
            !job_named(old(self)@, name@) ==> r is Ok && final(self)@ == old(self)@.push(
                JobEntry { name: name@, schedule: schedule@ },
            ),
    {
        if self.contains(&name) {
            return Err(SchedulerError::DuplicateName);
        }
        let ghost before = self@;
        let ghost entry = JobEntry { name: name@, schedule: schedule@ };
        self.jobs.push(JobSpec { name, schedule });
        assert(self@ =~= before.push(entry));
        assert forall|i: int, j: int|
            0 <= i < j < self@.len() implies #[trigger] self@[i].name != #[trigger] self@[j].name by {
            assert(self@[i] == before[i]);
            if j < before.len() {
                assert(self@[j] == before[j]);
            }
        }
        Ok(())
    }

    /// Removes the job of that name, if any, and says whether there was one.
    pub fn cancel(&mut self, name: &String) -> (r: bool)
        requires
            old(self).wf(),
        ensures
            final(self).wf(),
            r == job_named(old(self)@, name@),
            !job_named(final(self)@, name@),
            !r ==> final(self)@ == old(self)@,
            r ==> exists|i: int|
                0 <= i < old(self)@.len() && #[trigger] old(self)@[i].name == name@
                    && final(self)@ == old(self)@.remove(i),
    {
        match self.position(name) {
            None => false,
            Some(i) => {
                let ghost before = self@;
                let _ = self.jobs.remove(i);
                assert(self@ =~= before.remove(i as int));
                assert forall|a: int, b: int|
                    0 <= a < b < self@.len() implies #[trigger] self@[a].name
                    != #[trigger] self@[b].name by {
                    let a0 = if a < i { a } else { a + 1 };
                    let b0 = if b < i { b } else { b + 1 };
                    assert(self@[a] == before[a0]);
                    assert(self@[b] == before[b0]);
                }
                assert forall|k: int| 0 <= k < self@.len() implies #[trigger] self@[k].name
                    != name@ by {
                    let k0 = if k < i { k } else { k + 1 };
                    assert(self@[k] == before[k0]);
                }
                true
            }
        }
    }
}

} // verus!
