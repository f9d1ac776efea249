//! The module dispatcher: an ordered list of registered backend modules,
//! with first-match routing for downloads and exact-name routing for
//! searches.
//!
//! A module's network-facing capabilities — probing whether it supports a
//! URL, searching, downloading — run outside the library; the dispatcher
//! decides, from their plain answers, which module serves a request.
//! Registration order is the tie-break: the earliest matching module
//! wins, and a failure of the selected module is never retried on a later
//! one.

use vstd::prelude::*;

use crate::error::Error;
use crate::format::AudioFormat;
use crate::remux::{remux, spec_remux_ok, spec_selected_audio, spec_wf_input, InputContainer,
    Metadata, OutputContainer};
use crate::strutil::str_eq;

verus! {

/// A registered backend module, identified by its service name.
pub struct ModuleInfo {
    /// The exact service name the module answers to.
    pub name: String,
}

/// The dispatcher owning the ordered list of registered modules.
pub struct Client {
    modules: Vec<ModuleInfo>,
}

impl Client {
    /// The registered modules, in registration order.
    pub closed spec fn spec_modules(self) -> Seq<ModuleInfo> {
        self.modules@
    }

    /// A dispatcher with no registered modules.
    pub fn new() -> (c: Client)
        ensures
            c.spec_modules() == Seq::<ModuleInfo>::empty(),
    {
        Client { modules: Vec::new() }
    }

    /// Registers a module at the end of the list.
    pub fn add_module(&mut self, m: ModuleInfo)
        ensures
            final(self).spec_modules() == old(self).spec_modules().push(m),
    {
        self.modules.push(m);
    }

    /// How many modules are registered.
    pub fn module_count(&self) -> (n: usize)
        ensures
            n == self.spec_modules().len(),
    {
        self.modules.len()
    }

    /// The name of the registered module at an index.
    pub fn module_name(&self, i: usize) -> (r: &String)
        requires
            i < self.spec_modules().len(),
        ensures
            r@ == self.spec_modules()[i as int].name@,
    {
        &self.modules[i].name
    }

    /// Selects the module that serves a download: the first one, in
    /// registration order, whose URL-support predicate answered true.
    ///
    /// `url_supported[i]` is module `i`'s answer for the requested URL.
    /// Fails with [`Error::NoAvailableModules`] exactly when no module
    /// answered true.
    pub fn select_download(&self, url_supported: &Vec<bool>) -> (r: Result<usize, Error>)
        requires
            url_supported@.len() == self.spec_modules().len(),
        ensures
            r is Ok <==> exists|i: int| 0 <= i < url_supported@.len() && url_supported@[i],
            r is Ok ==> {
                let k = r->Ok_0 as int;
                &&& 0 <= k < url_supported@.len()
                &&& url_supported@[k]
                &&& forall|j: int| 0 <= j < k ==> !url_supported@[j]
            },
            r is Err ==> r->Err_0 == Error::NoAvailableModules,
    {
        let n = url_supported.len();
        let mut i: usize = 0;
        while i < n
            invariant
                i <= n,
                n == url_supported@.len(),
                forall|j: int| 0 <= j < i ==> !url_supported@[j],
            decreases n - i,
        {
            if url_supported[i] {
                return Ok(i);
            }
            i += 1;
        }
        Err(Error::NoAvailableModules)
    }

    /// Selects the module that serves a search: the first one, in
    /// registration order, whose name equals the requested service name
    /// exactly.
    ///
    /// Fails with [`Error::NoAvailableModules`] exactly when no
    /// registered module carries that name.
    pub fn select_search(&self, service: &str) -> (r: Result<usize, Error>)
        ensures
            r is Ok <==> exists|i: int|
                0 <= i < self.spec_modules().len() && self.spec_modules()[i].name@ == service@,
            r is Ok ==> {
                let k = r->Ok_0 as int;
                &&& 0 <= k < self.spec_modules().len()
                &&& self.spec_modules()[k].name@ == service@
                &&& forall|j: int| 0 <= j < k ==> self.spec_modules()[j].name@ != service@
            },
            r is Err ==> r->Err_0 == Error::NoAvailableModules,
    {
        let n = self.modules.len();
        let mut i: usize = 0;
        while i < n
            invariant
                i <= n,
                n == self.spec_modules().len(),
                forall|j: int| 0 <= j < i ==> self.spec_modules()[j].name@ != service@,
            decreases n - i,
        {
            if str_eq(self.modules[i].name.as_str(), service) {
                return Ok(i);
            }
            i += 1;
        }
        Err(Error::NoAvailableModules)
    }

    /// Delegates a merge to the remux engine and returns its result
    /// tagged with the original audio format.
    pub fn remux(
        &self,
        format: AudioFormat,
        input_audio: &InputContainer,
        input_cover: Option<&InputContainer>,
        metadata: &Metadata,
    ) -> (r: Result<(AudioFormat, OutputContainer), Error>)
        requires
            spec_wf_input(*input_audio),
            input_cover is Some ==> spec_wf_input(*input_cover->Some_0),
        ensures
            r is Ok <==> spec_selected_audio(*input_audio) is Some,
            r is Ok ==> r->Ok_0.0 == format && spec_remux_ok(*input_audio, match input_cover {
                Some(c) => Some(*c),
                None => None,
            }, *metadata, r->Ok_0.1),
            r is Err ==> (r->Err_0 matches Error::RemuxError(msg) && msg@
                == "cannot find stream"@),
    {
        match remux(input_audio, input_cover, metadata) {
            Ok(out) => Ok((format, out)),
            Err(e) => Err(e),
        }
    }
}

} // verus!
