use vstd::prelude::*;

verus! {

/// Run parameters of one generation.
#[derive(Debug, Clone)]
pub struct Args {
    /// Path of the source description; only ever read.
    pub src: String,
    /// Path of the generated file; written twice during a run.
    pub dst: String,
    /// Leave the entry-point stub out of the generated file.
    pub without_main: bool,
    /// Target the older toolchain: reflection import and alternate struct emission.
    pub go118: bool,
    /// Do not run the formatter on the generated file.
    pub no_fmt: bool,
}

/// Mathematical value of [`Args`].
pub struct ArgsView {
    pub src: Seq<char>,
    pub dst: Seq<char>,
    pub without_main: bool,
    pub go118: bool,
    pub no_fmt: bool,
}

impl View for Args {
    type V = ArgsView;

    open spec fn view(&self) -> ArgsView {
        ArgsView {
            src: self.src@,
            dst: self.dst@,
            without_main: self.without_main,
            go118: self.go118,
            no_fmt: self.no_fmt,
        }
    }
}

impl ArgsView {
    /// Both paths are present.
    pub open spec fn is_resolved(self) -> bool {
        self.src.len() > 0 && self.dst.len() > 0
    }

    /// The value that resolution gives to two paths: every flag off.
    pub open spec fn with_paths(src: Seq<char>, dst: Seq<char>) -> ArgsView {
        ArgsView { src, dst, without_main: false, go118: false, no_fmt: false }
    }
}

impl Args {
    /// Resolves the two mandatory paths into run parameters with every flag off.
    /// An empty path is refused; nothing on disk is looked at.
    pub fn resolve(src: String, dst: String) -> (resolved: Option<Args>)
        ensures
            resolved.is_some() <==> (src@.len() > 0 && dst@.len() > 0),
            resolved matches Some(a) ==> a@ == ArgsView::with_paths(src@, dst@),
    {
        if src.as_str().is_empty() || dst.as_str().is_empty() {
            None
        } else {
            Some(Args { src, dst, without_main: false, go118: false, no_fmt: false })
        }
    }

    /// Whether both paths are present.
    pub fn is_resolved(&self) -> (yes: bool)
        ensures
            yes == self@.is_resolved(),
    {
        !self.src.as_str().is_empty() && !self.dst.as_str().is_empty()
    }
}

impl Default for Args {
    /// Empty paths and every flag off.
    fn default() -> (args: Args)
        ensures
            args@ == ArgsView::with_paths(Seq::empty(), Seq::empty()),
    {
        Args {
            src: String::new(),
            dst: String::new(),
            without_main: false,
            go118: false,
            no_fmt: false,
        }
    }
}

} // verus!
