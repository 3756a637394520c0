use vstd::prelude::*;

use crate::parser::reader::StartThread;

verus! {

/// A thread as it is kept: what its start record said of it.
#[derive(Clone, Copy, Debug, PartialEq, Eq)]
pub struct Thread {
    pub thread_serial_num: u32,
    pub thread_obj_id: u64,
    pub trace_serial_num: u32,
    /// thread name id
    pub t_name_index: u64,
    /// thread group name id
    pub g_name_index: u64,
    /// parent thread group name id
    pub p_name_index: u64,
}

impl From<StartThread> for Thread {
    fn from(started: StartThread) -> (thread: Thread) {
        Thread {
            thread_serial_num: started.thread_serial_num,
            thread_obj_id: started.thread_obj_id,
            trace_serial_num: started.trace_serial_num,
            t_name_index: started.t_name_index,
            g_name_index: started.g_name_index,
            p_name_index: started.p_name_index,
        }
    }
}

impl vstd::std_specs::convert::FromSpecImpl<StartThread> for Thread {
    open spec fn obeys_from_spec() -> bool {
        true
    }

    open spec fn from_spec(started: StartThread) -> Thread {
        Thread {
            thread_serial_num: started.thread_serial_num,
            thread_obj_id: started.thread_obj_id,
            trace_serial_num: started.trace_serial_num,
            t_name_index: started.t_name_index,
            g_name_index: started.g_name_index,
            p_name_index: started.p_name_index,
        }
    }
}

} // verus!
