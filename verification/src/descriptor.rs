use vstd::prelude::*;

verus! {

/// How a call crosses the language boundary.
#[derive(Debug, Clone, Copy, PartialEq, Eq, Structural)]
pub enum Transport {
    /// Through a pre-allocated ring buffer in shared memory.
    SharedMemory,
    /// Through a plain foreign call.
    DirectCall,
}

/// One method of a declared trait. The memory-call identifier is the only
/// thing that selects its transport.
#[derive(Debug, Clone, Copy, PartialEq, Eq)]
pub struct FunctionDescriptor {
    pub mem_call_id: Option<usize>,
}

impl FunctionDescriptor {
    /// Shared memory where an identifier is present, a direct call where it is not.
    pub open spec fn selected(self) -> Transport {
        if self.mem_call_id.is_some() {
            Transport::SharedMemory
        } else {
            Transport::DirectCall
        }
    }

    /// The transport that this function uses.
    pub fn transport(&self) -> (t: Transport)
        ensures
            t == self.selected(),
    {
        match self.mem_call_id {
            Some(_) => Transport::SharedMemory,
            None => Transport::DirectCall,
        }
    }
}

/// One declared trait: its functions in declaration order and the three text
/// fragments that were generated for it.
#[derive(Debug, Clone, PartialEq, Eq)]
pub struct TraitDescriptor {
    pub functions: Vec<FunctionDescriptor>,
    /// C callback declarations, destined for the embedded header.
    pub callbacks: String,
    /// The Go interface of the trait.
    pub interface: String,
    /// The exported Go bridge functions of the trait.
    pub exports: String,
}

/// Mathematical value of [`TraitDescriptor`].
pub struct TraitView {
    pub functions: Seq<FunctionDescriptor>,
    pub callbacks: Seq<char>,
    pub interface: Seq<char>,
    pub exports: Seq<char>,
}

impl View for TraitDescriptor {
    type V = TraitView;

    open spec fn view(&self) -> TraitView {
        TraitView {
            functions: self.functions@,
            callbacks: self.callbacks@,
            interface: self.interface@,
            exports: self.exports@,
        }
    }
}

/// The values of a sequence of descriptors, in the same order.
pub open spec fn trait_views(traits: Seq<TraitDescriptor>) -> Seq<TraitView> {
    Seq::new(traits.len(), |i: int| traits[i]@)
}

impl TraitView {
    /// Some function of the trait uses the given transport.
    pub open spec fn has(self, transport: Transport) -> bool {
        exists|j: int|
            0 <= j < self.functions.len() && (#[trigger] self.functions[j]).selected() == transport
    }
}

impl TraitDescriptor {
    /// Whether some function of the trait uses the given transport.
    pub fn has(&self, transport: Transport) -> (found: bool)
        ensures
            found == self@.has(transport),
    {
        let mut j: usize = 0;
        while j < self.functions.len()
            invariant
                j <= self.functions.len(),
                forall|k: int| 0 <= k < j ==> (#[trigger] self.functions@[k]).selected() != transport,
            decreases self.functions.len() - j,
        {
            if self.functions[j].transport() == transport {
                return true;
            }
            j = j + 1;
        }
        false
    }
}

} // verus!
