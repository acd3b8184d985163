use vstd::prelude::*;

use crate::batch::GelfRecord;

verus! {

/// Bytes written for one record: its payload, then a NUL byte when the
/// collector expects one as separator.
pub open spec fn frame_of(payload: Seq<u8>, null_character: bool) -> Seq<u8> {
    if null_character {
        payload.push(0u8)
    } else {
        payload
    }
}

/// A copy of `bytes`, then a NUL byte when `null_character` is set.
pub fn frame_bytes(bytes: &[u8], null_character: bool) -> (r: Vec<u8>)
    ensures
        r@ == frame_of(bytes@, null_character),
{
    let mut out: Vec<u8> = Vec::new();
    let mut i: usize = 0;
    while i < bytes.len()
        invariant
            i <= bytes@.len(),
            out@ == bytes@.subrange(0, i as int),
        decreases bytes@.len() - i,
    {
        out.push(bytes[i]);
        i += 1;
        assert(out@ =~= bytes@.subrange(0, i as int));
    }
    assert(out@ =~= bytes@);
    if null_character {
        out.push(0u8);
    }
    out
}

/// Where and how a batch is written: one write per record, in batch order.
#[derive(Debug, Clone)]
pub struct GelfTcpOutput {
    hostname: String,
    port: u64,
    use_tls: bool,
    null_character: bool,
}

impl GelfTcpOutput {
    pub closed spec fn host_spec(&self) -> Seq<char> {
        self.hostname@
    }

    pub closed spec fn port_spec(&self) -> u64 {
        self.port
    }

    pub closed spec fn tls_spec(&self) -> bool {
        self.use_tls
    }

    pub closed spec fn null_spec(&self) -> bool {
        self.null_character
    }

    pub fn new(hostname: String, port: u64, use_tls: bool, null_character: bool) -> (r: GelfTcpOutput)
        ensures
            r.host_spec() == hostname@,
            r.port_spec() == port,
            r.tls_spec() == use_tls,
            r.null_spec() == null_character,
    {
        GelfTcpOutput { hostname, port, use_tls, null_character }
    }

    pub fn hostname(&self) -> (r: &String)
        ensures
            r@ == self.host_spec(),
    {
        &self.hostname
    }

    pub fn port(&self) -> (r: u64)
        ensures
            r == self.port_spec(),
    {
        self.port
    }

    pub fn use_tls(&self) -> (r: bool)
        ensures
            r == self.tls_spec(),
    {
        self.use_tls
    }

    pub fn null_character(&self) -> (r: bool)
        ensures
            r == self.null_spec(),
    {
        self.null_character
    }

    /// The bytes of one write for `rec`.
    pub fn frame(&self, rec: &GelfRecord) -> (r: Vec<u8>)
        ensures
            r@ == frame_of(rec.payload@, self.null_spec()),
    {
        frame_bytes(rec.payload.as_slice(), self.null_character)
    }

    /// The writes for a whole batch, one per record, in batch order.
    pub fn frames(&self, batch: &Vec<GelfRecord>) -> (r: Vec<Vec<u8>>)
        ensures
            r@.len() == batch@.len(),
            forall|i: int|
                0 <= i < batch@.len() ==> #[trigger] r@[i]@ == frame_of(
                    batch@[i].payload@,
                    self.null_spec(),
                ),
    {
        let mut out: Vec<Vec<u8>> = Vec::new();
        let mut i: usize = 0;
        while i < batch.len()
            invariant
                i <= batch@.len(),
                out@.len() == i,
                forall|j: int|
                    0 <= j < i ==> #[trigger] out@[j]@ == frame_of(
                        batch@[j].payload@,
                        self.null_spec(),
                    ),
            decreases batch@.len() - i,
        {
            let f = self.frame(&batch[i]);
            out.push(f);
            i += 1;
        }
        out
    }
}

} // verus!
