//! Pipeline programs and their hot reload: each pass slot owns one program,
//! built from a shader source and an entry point. A reload rebuilds every
//! slot of a source at once, or none of them.
use vstd::prelude::*;

verus! {

/// A compiled program of one pass slot. Its identity is the build version:
/// a reload replaces the program by one of a new version, never edits it.
#[derive(Clone, Copy, Debug, PartialEq, Eq, Structural)]
pub struct PipelineProgram {
    pub source: u32,
    pub entry: u32,
    pub version: u64,
}

/// Why a reload left the programs as they were.
#[derive(Clone, Copy, Debug, PartialEq, Eq, Structural)]
pub enum ReloadError {
    /// The new source text does not compile.
    Invalid,
    /// Every version number was used.
    VersionsExhausted,
}

/// The programs of all pass slots, with the latest version handed out.
#[derive(Clone, Debug)]
pub struct ProgramTable {
    pub slots: Vec<PipelineProgram>,
    pub version: u64,
}

/// The slots of `old` after the slots bound to `source` were rebuilt at
/// `version`.
pub open spec fn rebuilt(old: Seq<PipelineProgram>, source: u32, version: u64) -> Seq<PipelineProgram> {
    Seq::new(
        old.len(),
        |i: int|
            if old[i].source == source {
                PipelineProgram { source: old[i].source, entry: old[i].entry, version }
            } else {
                old[i]
            },
    )
}

impl ProgramTable {
    /// Slots built from one source share one version, and no slot is newer
    /// than the table.
    pub open spec fn wf(self) -> bool {
        &&& forall|i: int, j: int|
            0 <= i < self.slots.len() && 0 <= j < self.slots.len() && #[trigger] self.slots@[i].source
                == #[trigger] self.slots@[j].source ==> self.slots@[i].version == self.slots@[j].version
        &&& forall|i: int| 0 <= i < self.slots.len() ==> #[trigger] self.slots@[i].version <= self.version
    }

    /// A table with no slots.
    pub fn new() -> (r: ProgramTable)
        ensures
            r.wf(),
            r.slots@.len() == 0,
            r.version == 0,
    {
        ProgramTable { slots: Vec::new(), version: 0 }
    }

    /// Adds a slot for `entry` of `source`, built at the version the other
    /// slots of that source have (the table's version if there are none),
    /// and returns its index.
    pub fn add_slot(&mut self, source: u32, entry: u32) -> (r: usize)
        requires
            old(self).wf(),
            old(self).slots@.len() < usize::MAX,
        ensures
            final(self).wf(),
            r == old(self).slots@.len(),
            final(self).version == old(self).version,
            final(self).slots@.len() == old(self).slots@.len() + 1,
            final(self).slots@.subrange(0, r as int) == old(self).slots@,
            final(self).slots@[r as int].source == source,
            final(self).slots@[r as int].entry == entry,
            (forall|i: int| 0 <= i < old(self).slots@.len() ==> #[trigger] old(self).slots@[i].source != source)
                ==> final(self).slots@[r as int].version == old(self).version,
    {
        let mut version = self.version;
        let mut found = false;
        let ghost mut k: int = 0;
        let mut i: usize = 0;
        while i < self.slots.len()
            invariant
                self.wf(),
                i <= self.slots@.len(),
                !found ==> version == self.version,
                !found ==> forall|j: int| 0 <= j < i ==> #[trigger] self.slots@[j].source != source,
                found ==> 0 <= k < self.slots@.len() && self.slots@[k].source == source
                    && self.slots@[k].version == version,
            decreases self.slots@.len() - i,
        {
            if !found && self.slots[i].source == source {
                version = self.slots[i].version;
                found = true;
                proof {
                    k = i as int;
                }
            }
            i = i + 1;
        }
        let ghost before = self.slots@;
        let r = self.slots.len();
        self.slots.push(PipelineProgram { source, entry, version });
        proof {
            assert(self.slots@.subrange(0, r as int) =~= before);
            assert(self.slots@[r as int].version <= self.version);
            assert forall|a: int, b: int|
                0 <= a < self.slots.len() && 0 <= b < self.slots.len() && #[trigger] self.slots@[a].source
                    == #[trigger] self.slots@[b].source implies self.slots@[a].version == self.slots@[b].version by {
                if a < r && b == r {
                    assert(before[a].source == before[k].source);
                } else if a == r && b < r {
                    assert(before[b].source == before[k].source);
                }
            }
        }
        r
    }

    /// Applies the outcome of compiling new text for `source` between two
    /// frames. When it compiled, every slot bound to `source` gets a program
    /// of one new version and all others stay; otherwise nothing changes.
    pub fn apply_compile_result(&mut self, source: u32, compiled: bool) -> (r: Result<(), ReloadError>)
        requires
            old(self).wf(),
        ensures
            final(self).wf(),
            !compiled ==> r == Err::<(), ReloadError>(ReloadError::Invalid),
            compiled && old(self).version == u64::MAX ==> r == Err::<(), ReloadError>(ReloadError::VersionsExhausted),
            r is Err ==> final(self).slots@ == old(self).slots@ && final(self).version == old(self).version,
            compiled && old(self).version < u64::MAX ==> {
                &&& r is Ok
                &&& final(self).version == old(self).version + 1
                &&& final(self).slots@ == rebuilt(old(self).slots@, source, (old(self).version + 1) as u64)
            },
    {
        if !compiled {
            return Err(ReloadError::Invalid);
        }
        if self.version == u64::MAX {
            return Err(ReloadError::VersionsExhausted);
        }
        let version = self.version + 1;
        let ghost before = self.slots@;
        let n = self.slots.len();
        let mut i: usize = 0;
        while i < n
            invariant
                n == before.len(),
                self.slots@.len() == n,
                i <= n,
                forall|j: int| 0 <= j < i ==> #[trigger] self.slots@[j] == rebuilt(before, source, version)[j],
                forall|j: int| i <= j < n ==> #[trigger] self.slots@[j] == before[j],
            decreases n - i,
        {
            let p = self.slots[i];
            if p.source == source {
                self.slots.set(i, PipelineProgram { source: p.source, entry: p.entry, version });
            }
            i = i + 1;
        }
        self.version = version;
        proof {
            assert(self.slots@ =~= rebuilt(before, source, version));
            assert forall|a: int, b: int|
                0 <= a < self.slots.len() && 0 <= b < self.slots.len() && #[trigger] self.slots@[a].source
                    == #[trigger] self.slots@[b].source implies self.slots@[a].version == self.slots@[b].version by {
                assert(before[a].source == before[b].source);
            }
        }
        Ok(())
    }

    /// Hot reload of `source`, between frames. `compiled` is what the
    /// watcher saw: `None` for no change (or a read that failed), which
    /// leaves everything as it is; `Some(false)` for new text that did not
    /// compile, which is reported and leaves every program in place;
    /// `Some(true)` for text whose programs were all built, which rebuilds
    /// every slot bound to `source` together.
    pub fn check_and_reload(&mut self, source: u32, compiled: Option<bool>) -> (r: Result<bool, ReloadError>)
        requires
            old(self).wf(),
        ensures
            final(self).wf(),
            compiled is None ==> r == Ok::<bool, ReloadError>(false) && *final(self) == *old(self),
            compiled == Some(false) ==> r == Err::<bool, ReloadError>(ReloadError::Invalid),
            compiled == Some(true) && old(self).version == u64::MAX ==> r == Err::<bool, ReloadError>(
                ReloadError::VersionsExhausted,
            ),
            compiled == Some(true) && old(self).version < u64::MAX ==> {
                &&& r == Ok::<bool, ReloadError>(true)
                &&& final(self).version == old(self).version + 1
                &&& final(self).slots@ == rebuilt(old(self).slots@, source, (old(self).version + 1) as u64)
            },
            r is Err ==> final(self).slots@ == old(self).slots@ && final(self).version == old(self).version,
    {
        match compiled {
            None => Ok(false),
            Some(c) => match self.apply_compile_result(source, c) {
                Ok(()) => Ok(true),
                Err(e) => Err(e),
            },
        }
    }
}

} // verus!
