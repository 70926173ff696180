//! Bookkeeping for work that runs in the background: which request is the
//! latest, whether it is still running, and whether what is shown is out of
//! date.
use vstd::prelude::*;

verus! {

#[derive(Debug)]
pub struct AsyncState {
    pub generation: u64,
    pub loading: bool,
    pub stale: bool,
    pub error: Option<String>,
}

pub open spec fn next_generation(g: u64) -> u64 {
    if g == u64::MAX {
        0
    } else {
        (g + 1) as u64
    }
}

/// The state that nothing has been asked of yet.
pub open spec fn idle() -> AsyncState {
    AsyncState { generation: 0, loading: false, stale: false, error: None }
}

impl Default for AsyncState {
    fn default() -> (r: Self)
        ensures
            r == idle(),
    {
        AsyncState { generation: 0, loading: false, stale: false, error: None }
    }
}

impl AsyncState {
    pub open spec fn begun(self) -> Self {
        AsyncState {
            generation: next_generation(self.generation),
            loading: true,
            stale: false,
            error: None,
        }
    }

    pub open spec fn marked(self) -> Self {
        AsyncState { stale: true, ..self }
    }

    /// No request is running; a result that is still on its way is not taken.
    pub open spec fn dropped(self, stale: bool) -> Self {
        AsyncState {
            generation: next_generation(self.generation),
            loading: false,
            stale,
            error: None,
        }
    }

    pub open spec fn done(self) -> Self {
        AsyncState { loading: false, stale: false, error: None, ..self }
    }

    pub open spec fn failed(self, error: String) -> Self {
        AsyncState { loading: false, stale: true, error: Some(error), ..self }
    }

    /// Starts a request and gives its generation.
    pub fn begin(&mut self) -> (r: u64)
        ensures
            *final(self) == old(self).begun(),
            r == final(self).generation,
    {
        self.generation = if self.generation == u64::MAX {
            0
        } else {
            self.generation + 1
        };
        self.loading = true;
        self.stale = false;
        self.error = None;
        self.generation
    }

    /// Takes a result if it belongs to the latest request.
    pub fn complete_ok(&mut self, generation: u64) -> (r: bool)
        ensures
            r == (generation == old(self).generation),
            *final(self) == (if r {
                old(self).done()
            } else {
                *old(self)
            }),
    {
        if generation != self.generation {
            return false;
        }
        self.loading = false;
        self.stale = false;
        self.error = None;
        true
    }

    /// Takes a failure if it belongs to the latest request. What is shown is
    /// then out of date.
    pub fn complete_err(&mut self, generation: u64, error: String) -> (r: bool)
        ensures
            r == (generation == old(self).generation),
            *final(self) == (if r {
                old(self).failed(error)
            } else {
                *old(self)
            }),
    {
        if generation != self.generation {
            return false;
        }
        self.loading = false;
        self.stale = true;
        self.error = Some(error);
        true
    }

    pub fn mark_stale(&mut self)
        ensures
            *final(self) == old(self).marked(),
    {
        self.stale = true;
    }

    pub fn invalidate(&mut self)
        ensures
            *final(self) == old(self).dropped(false),
    {
        let g: u64 = self.begin();
        self.loading = false;
    }

    pub fn invalidate_stale(&mut self)
        ensures
            *final(self) == old(self).dropped(true),
    {
        let g: u64 = self.begin();
        self.loading = false;
        self.stale = true;
    }

    /// Whether a request is due: what is shown is out of date and none runs.
    pub open spec fn due(self) -> bool {
        self.stale && !self.loading
    }

    pub fn should_request(&self) -> (r: bool)
        ensures
            r == self.due(),
    {
        self.stale && !self.loading
    }
}

/// A result is taken at most for the latest request: once another request has
/// begun, or the request was given up, the result of the earlier one no
/// longer matches.
pub proof fn law_superseded_results_are_dropped(s: AsyncState)
    ensures
        s.begun().generation != s.generation,
        s.dropped(true).generation != s.generation,
        s.dropped(false).generation != s.generation,
{
}

/// A request that has begun is not begun again while it runs.
pub proof fn law_no_second_request(s: AsyncState)
    ensures
        !s.begun().due(),
        !s.begun().marked().due(),
{
}

} // verus!
