use vstd::prelude::*;

use crate::error::Error;

verus! {

/// Records sent in one go by the direct TCP appender, unless set.
pub const DEFAULT_BATCH_SIZE: usize = 1000;

/// Records the direct TCP appender holds at most, unless set.
pub const DEFAULT_MAX_CACHE_SIZE: usize = 10000;

/// What the direct TCP appender's worker does after taking one line.
#[derive(Debug, Clone, Copy, PartialEq, Eq, Structural)]
pub enum CacheStep {
    /// The cache was full: the line is dropped and the cache is unchanged.
    Dropped,
    /// The line is kept; the cache is still short of a batch.
    Buffered,
    /// The line is kept and the cache holds a batch: send it.
    Send,
}

/// The cache after one line arrives, and the step taken.
pub open spec fn after_line(
    cache: Seq<Seq<u8>>,
    batch_size: nat,
    max_cache_size: nat,
    line: Seq<u8>,
) -> (Seq<Seq<u8>>, CacheStep) {
    if cache.len() >= max_cache_size {
        (cache, CacheStep::Dropped)
    } else if cache.len() + 1 >= batch_size {
        (cache.push(line), CacheStep::Send)
    } else {
        (cache.push(line), CacheStep::Buffered)
    }
}

/// Encoded lines waiting for the direct TCP appender's next send. A send
/// that fails keeps them; one that succeeds empties the cache.
#[derive(Debug)]
pub struct TcpCache {
    lines: Vec<Vec<u8>>,
    batch_size: usize,
    max_cache_size: usize,
}

impl TcpCache {
    pub closed spec fn contents(&self) -> Seq<Seq<u8>> {
        self.lines@.map_values(|l: Vec<u8>| l@)
    }

    pub closed spec fn batch_size_spec(&self) -> nat {
        self.batch_size as nat
    }

    pub closed spec fn max_cache_size_spec(&self) -> nat {
        self.max_cache_size as nat
    }

    pub fn new(batch_size: usize, max_cache_size: usize) -> (r: TcpCache)
        ensures
            r.contents() == Seq::<Seq<u8>>::empty(),
            r.batch_size_spec() == batch_size,
            r.max_cache_size_spec() == max_cache_size,
    {
        let r = TcpCache { lines: Vec::new(), batch_size, max_cache_size };
        assert(r.contents() =~= Seq::<Seq<u8>>::empty());
        r
    }

    /// The lines to send, oldest first.
    pub fn lines(&self) -> (r: &Vec<Vec<u8>>)
        ensures
            r@.map_values(|l: Vec<u8>| l@) == self.contents(),
    {
        &self.lines
    }

    pub fn len(&self) -> (r: usize)
        ensures
            r == self.contents().len(),
    {
        self.lines.len()
    }

    /// Takes one encoded line.
    pub fn on_line(&mut self, line: Vec<u8>) -> (r: CacheStep)
        ensures
            (final(self).contents(), r) == after_line(
                old(self).contents(),
                old(self).batch_size_spec(),
                old(self).max_cache_size_spec(),
                line@,
            ),
            old(self).contents().len() <= old(self).max_cache_size_spec()
                ==> final(self).contents().len() <= final(self).max_cache_size_spec(),
            final(self).batch_size_spec() == old(self).batch_size_spec(),
            final(self).max_cache_size_spec() == old(self).max_cache_size_spec(),
    {
        if self.lines.len() >= self.max_cache_size {
            CacheStep::Dropped
        } else {
            let ghost before = self.lines@;
            self.lines.push(line);
            assert(self.lines@.map_values(|l: Vec<u8>| l@) =~= before.map_values(
                |l: Vec<u8>| l@,
            ).push(line@));
            if self.lines.len() >= self.batch_size {
                CacheStep::Send
            } else {
                CacheStep::Buffered
            }
        }
    }

    /// Takes the outcome of a send: success empties the cache, failure keeps it.
    pub fn on_sent(&mut self, delivered: bool)
        ensures
            final(self).contents() == (if delivered {
                Seq::<Seq<u8>>::empty()
            } else {
                old(self).contents()
            }),
            final(self).batch_size_spec() == old(self).batch_size_spec(),
            final(self).max_cache_size_spec() == old(self).max_cache_size_spec(),
    {
        if delivered {
            self.lines.clear();
            assert(self.contents() =~= Seq::<Seq<u8>>::empty());
        }
    }
}

/// Checks that the direct TCP appender has somewhere to send to.
pub fn check_hosts(n_hosts: usize) -> (r: Result<(), Error>)
    ensures
        n_hosts > 0 <==> r is Ok,
        r matches Err(Error::InvalidConfiguration(m)) ==> m@ == "No host set!"@,
        r matches Err(e) ==> e is InvalidConfiguration,
{
    if n_hosts == 0 {
        Err(Error::InvalidConfiguration("No host set!".to_owned()))
    } else {
        Ok(())
    }
}

} // verus!
