//! The dispatcher's routing decision: which connections one pending job is
//! written to.
//!
//! The surrounding drain loop dequeues a job, asks [`delivery_targets`]
//! where it goes, and writes the job's packet through each target session's
//! connection writer, in list order.

use vstd::prelude::*;

use crate::packets::Packet;
use crate::registry::{copy_ids, WorkerJob};

verus! {

/// The sessions one job is delivered to, in delivery order: a publish goes
/// to every session of the job's subscriber snapshot, a subscribe
/// acknowledgement goes back to the session that asked, and any other
/// packet kind is dropped (logged by the caller) and delivered to nobody.
pub fn delivery_targets(job: &WorkerJob) -> (r: Vec<u64>)
    ensures
        job.packet matches Packet::Publish(_) ==> r@ == job.subscribers@,
        job.packet matches Packet::Suback(_) ==> r@ =~= seq![job.sender],
        !(job.packet matches Packet::Publish(_)) && !(job.packet matches Packet::Suback(_))
            ==> r@ =~= Seq::<u64>::empty(),
{
    match &job.packet {
        Packet::Publish(_) => copy_ids(&job.subscribers),
        Packet::Suback(_) => {
            let mut r: Vec<u64> = Vec::new();
            r.push(job.sender);
            r
        },
        _ => Vec::new(),
    }
}

} // verus!
