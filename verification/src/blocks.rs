use vstd::prelude::*;
use rust2go_common::raw_file::RawRsFile;

verus! {

/// The two fixed pieces of text that a document needs once some function
/// travels through shared memory: a C declaration block for the embedded
/// header, and the Go function that sets the rings up.
#[derive(Debug, Clone, PartialEq, Eq)]
pub struct ShmBlocks {
    pub declarations: String,
    pub ring_init: String,
}

/// Mathematical value of [`ShmBlocks`].
pub struct ShmBlocksView {
    pub declarations: Seq<char>,
    pub ring_init: Seq<char>,
}

impl View for ShmBlocks {
    type V = ShmBlocksView;

    open spec fn view(&self) -> ShmBlocksView {
        ShmBlocksView { declarations: self.declarations@, ring_init: self.ring_init@ }
    }
}

/// The C declaration of the queue descriptor that both sides of a ring
/// share, as the embedded header needs it.
pub open spec fn queue_declarations() -> Seq<char> {
    "
typedef struct QueueMeta {
    uintptr_t buffer_ptr;
    uintptr_t buffer_len;
    uintptr_t head_ptr;
    uintptr_t tail_ptr;
    uintptr_t working_ptr;
    uintptr_t stuck_ptr;
    int32_t working_fd;
    int32_t unstuck_fd;
    } QueueMeta;
        "@
}

/// The Go function that sets the rings up and serves the calls that arrive
/// through them.
pub open spec fn ring_set_up() -> Seq<char> {
    "
        func ringsInit(crr, crw C.QueueMeta, fns []func(unsafe.Pointer, *ants.MultiPool, func(interface{}, []byte, uint))) {
            const MULTIPOOL_SIZE = 8
            const SIZE_PER_POOL = -1

            type Storage struct {
                resp   interface{}
                buffer []byte
            }

            type Payload struct {
                Ptr          uint
                UserData     uint
                NextUserData uint
                CallId       uint32
                Flag         uint32
            }

            const CALL = 0b0101
            const REPLY = 0b1110
            const DROP = 0b1000

            queueMetaCvt := func(cq C.QueueMeta) mem_ring.QueueMeta {
                return mem_ring.QueueMeta{
                    BufferPtr:  uintptr(cq.buffer_ptr),
                    BufferLen:  uintptr(cq.buffer_len),
                    HeadPtr:    uintptr(cq.head_ptr),
                    TailPtr:    uintptr(cq.tail_ptr),
                    WorkingPtr: uintptr(cq.working_ptr),
                    StuckPtr:   uintptr(cq.stuck_ptr),
                    WorkingFd:  int32(cq.working_fd),
                    UnstuckFd:  int32(cq.unstuck_fd),
                }
            }

            rr := queueMetaCvt(crr)
            rw := queueMetaCvt(crw)

            rrq := mem_ring.NewQueue[Payload](rr)
            rwq := mem_ring.NewQueue[Payload](rw)

            gr := rwq.Read()
            gw := rrq.Write()

            slab := mem_ring.NewMultiSlab[Storage]()
            pool, _ := ants.NewMultiPool(MULTIPOOL_SIZE, SIZE_PER_POOL, ants.RoundRobin)

            gr.RunHandler(func(p Payload) {
                if p.Flag == CALL {
                    post_func := func(resp interface{}, buffer []byte, offset uint) {
                        if resp == nil {
                            payload := Payload{
                                Ptr:          0,
                                UserData:     p.UserData,
                                NextUserData: 0,
                                CallId:       p.CallId,
                                Flag:         DROP,
                            }
                            gw.Push(payload)
                            return
                        }

                        // Use slab to hold reference of resp and buffer
                        sid := slab.Push(Storage{
                            resp,
                            buffer,
                        })
                        payload := Payload{
                            Ptr:          uint(uintptr(unsafe.Pointer(&buffer[offset]))),
                            UserData:     p.UserData,
                            NextUserData: sid,
                            CallId:       p.CallId,
                            Flag:         REPLY,
                        }
                        gw.Push(payload)
                    }
                    fns[p.CallId](unsafe.Pointer(uintptr(p.Ptr)), pool, post_func)
                } else if p.Flag == DROP {
                    // drop memory instantly
                    slab.Pop(p.UserData)
                }
            })
        }
        "@
}

/// Calls `RawRsFile::go_shm_include` of rust2go-common, which takes nothing
/// and returns a constant piece of C text. The contract states that text,
/// character for character, as version 0.3.12 of the crate has it.
#[verifier::external_body]
fn shm_include_text() -> (text: &'static str)
    ensures
        text@ == queue_declarations(),
{
    RawRsFile::go_shm_include()
}

/// Calls `RawRsFile::go_shm_ring_init` of rust2go-common, which takes nothing
/// and returns a constant piece of Go text. The contract states that text,
/// character for character, as version 0.3.12 of the crate has it.
#[verifier::external_body]
fn shm_ring_init_text() -> (text: &'static str)
    ensures
        text@ == ring_set_up(),
{
    RawRsFile::go_shm_ring_init()
}

impl ShmBlocks {
    /// The two blocks as the generator library provides them: the queue
    /// declarations and the ring set-up.
    pub fn load() -> (blocks: ShmBlocks)
        ensures
            blocks@.declarations == queue_declarations(),
            blocks@.ring_init == ring_set_up(),
    {
        ShmBlocks {
            declarations: String::from_str(shm_include_text()),
            ring_init: String::from_str(shm_ring_init_text()),
        }
    }
}

} // verus!
