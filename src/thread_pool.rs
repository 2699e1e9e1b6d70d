//! The set of workers of a pool, built all at once: a pool of no workers is
//! refused before any worker is started.
use vstd::prelude::*;

verus! {

/// The workers of a pool, in the order they were started.
pub struct ThreadPool<W> {
    workers: Vec<W>,
}

impl<W> ThreadPool<W> {
    /// The workers, first started first.
    pub closed spec fn workers_view(&self) -> Seq<W> {
        self.workers@
    }

    /// Starts `size` workers, calling `spawn` with each id from 0 up; a size
    /// of zero is refused, and then no worker is started.
    pub fn build<F: Fn(usize) -> W>(size: usize, spawn: F) -> (r: Result<ThreadPool<W>, String>)
        requires
            forall|i: usize| i < size ==> #[trigger] spawn.requires((i,)),
        ensures
            size == 0 ==> (r matches Err(e) && e@ == "invalid size"@),
            size > 0 ==> (r matches Ok(p) && p.workers_view().len() == size && forall|i: int|
                0 <= i < size ==> #[trigger] spawn.ensures((i as usize,), p.workers_view()[i])),
    {
        if size == 0 {
            return Err(String::from_str("invalid size"));
        }
        let mut workers: Vec<W> = Vec::with_capacity(size);
        let mut id: usize = 0;
        while id < size
            invariant
                id <= size,
                workers@.len() == id,
                forall|i: usize| i < size ==> #[trigger] spawn.requires((i,)),
                forall|i: int| 0 <= i < id ==> #[trigger] spawn.ensures((i as usize,), workers@[i]),
            decreases size - id,
        {
            let w = spawn(id);
            workers.push(w);
            id = id + 1;
        }
        Ok(ThreadPool { workers })
    }

    /// The number of workers.
    pub fn size(&self) -> (r: usize)
        ensures
            r == self.workers_view().len(),
    {
        self.workers.len()
    }

    /// Hands the workers out, to be joined at shutdown; the pool is left
    /// with none.
    pub fn take_workers(&mut self) -> (r: Vec<W>)
        ensures
            r@ == old(self).workers_view(),
            final(self).workers_view().len() == 0,
    {
        let mut out: Vec<W> = Vec::new();
        std::mem::swap(&mut out, &mut self.workers);
        out
    }
}

} // verus!
