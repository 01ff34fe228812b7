//! The record that the host keeps of one engine context: the handle it owns,
//! the model bytes that the engine may still read, and the runtime that the
//! engine exposes once a model is loaded.

use crate::error::{result_view, Error, ErrorView, Status};
use crate::marshal::{marshaled, NativeString};
use vstd::prelude::*;
use vstd::string::StringSliceAdditionalSpecFns;

verus! {

/// One engine context, as the host sees it. `H` is the handle that the engine
/// gave for it and `R` the runtime embedded in the engine; the record owns both
/// and looks into neither.
#[derive(Debug)]
pub struct Context<H, R> {
    handle: Option<H>,
    model: Vec<u8>,
    dvrt_context: Option<R>,
}

/// The state of a [`Context`].
pub struct ContextView<H, R> {
    /// The handle, until it has been handed out for release.
    pub handle: Option<H>,
    /// The bytes of the loaded model; empty where none is loaded.
    pub model: Seq<u8>,
    /// The embedded runtime, once the engine has given it.
    pub runtime: Option<R>,
}

/// What can happen to a context between its creation and the end of its life.
pub enum Event<R> {
    /// A model was handed to the engine, which took it or refused it.
    LoadModel { memory: Seq<u8>, accepted: bool },
    /// The engine was asked for its embedded runtime and gave it or failed to.
    SetRuntime { runtime: Option<R> },
    /// The engine was asked to drop its model and did so or refused.
    UnloadModel { accepted: bool },
    /// Any operation that leaves the record as it is, whatever the engine
    /// answered: a run, a frame, a parameter, a query for results.
    Call,
    /// The handle was asked for, to release it.
    Release,
}

impl<H, R> ContextView<H, R> {
    /// The handle has not been handed out for release.
    pub open spec fn live(self) -> bool {
        self.handle is Some
    }

    /// A context fresh from the engine.
    pub open spec fn created(handle: H) -> Self {
        ContextView { handle: Some(handle), model: Seq::empty(), runtime: None }
    }

    /// The state after `event`. A refusal by the engine leaves the state as it
    /// was, and so does anything that happens after the release.
    pub open spec fn after(self, event: Event<R>) -> Self {
        if !self.live() {
            self
        } else {
            match event {
                Event::LoadModel { memory, accepted } => if accepted {
                    ContextView { model: memory, ..self }
                } else {
                    self
                },
                Event::SetRuntime { runtime } => match runtime {
                    Some(r) => ContextView { runtime: Some(r), ..self },
                    None => self,
                },
                Event::UnloadModel { accepted } => if accepted {
                    ContextView { model: Seq::empty(), ..self }
                } else {
                    self
                },
                Event::Call => self,
                Event::Release => ContextView { handle: None, ..self },
            }
        }
    }

    /// The handle that `event` hands out for release, if any.
    pub open spec fn handed_out(self, event: Event<R>) -> Option<H> {
        match event {
            Event::Release => self.handle,
            _ => None,
        }
    }
}

impl<H, R> View for Context<H, R> {
    type V = ContextView<H, R>;

    closed spec fn view(&self) -> ContextView<H, R> {
        ContextView { handle: self.handle, model: self.model@, runtime: self.dvrt_context }
    }
}

/// The detail of the error of [`Context::model`].
pub open spec fn no_model_text() -> Seq<char> {
    "No model available"@
}

/// The detail of the error of [`Context::dvrt_context`].
pub open spec fn no_runtime_text() -> Seq<char> {
    "No DeepViewRT context"@
}

impl<H, R> Context<H, R> {
    /// Takes what the engine answered to the request for a new context. A null
    /// handle is a failure of the platform, reported with the kind of its last
    /// error; any other handle is owned by the new record from here on.
    pub fn new(handle: Option<H>, last_error: std::io::ErrorKind) -> (result: Result<Self, Error>)
        ensures
            match handle {
                Some(h) => result matches Ok(context) && context@ == ContextView::<H, R>::created(
                    h,
                ),
                None => result matches Err(error) && error@ == ErrorView::Io(last_error),
            },
    {
        match handle {
            Some(handle) => Ok(Context { handle: Some(handle), model: Vec::new(), dvrt_context: None }),
            None => Err(Error::IoError(last_error)),
        }
    }

    /// The handle to make a native call with: absent once it has been handed out
    /// for release.
    pub fn handle(&self) -> (handle: Option<&H>)
        ensures
            match handle {
                Some(h) => self@.handle == Some(*h),
                None => self@.handle is None,
            },
    {
        self.handle.as_ref()
    }

    /// Takes the engine's answer to the loading of `memory`. Where the engine
    /// took the model, the record keeps its bytes from here on, since the engine
    /// may read them until the model is unloaded; the bytes held before are
    /// dropped only now. Where the engine refused, the record stays as it was
    /// and the failure is returned. A record whose handle has been handed out
    /// takes no model any more.
    pub fn load_model(&mut self, memory: Vec<u8>, status: Status) -> (result: Result<(), Error>)
        ensures
            result_view(result) == status.outcome(),
            final(self)@ == old(self)@.after(
                Event::LoadModel { memory: memory@, accepted: status.succeeded() },
            ),
    {
        match status.result() {
            Ok(()) => {
                if self.handle.is_some() {
                    self.model = memory;
                }
                Ok(())
            },
            Err(error) => Err(error),
        }
    }

    /// Takes the runtime that the engine exposes after a model was loaded, or
    /// the reason why there is none. A reason leaves the record as it was and is
    /// returned as the error. A record whose handle has been handed out takes no
    /// runtime any more.
    pub fn set_dvrt_context(&mut self, runtime: Result<R, String>) -> (result: Result<(), Error>)
        ensures
            match runtime {
                Ok(r) => result is Ok && final(self)@ == old(self)@.after(
                    Event::SetRuntime { runtime: Some(r) },
                ),
                Err(reason) => result matches Err(error) && error@ == ErrorView::Wrapper(reason@)
                    && final(self)@ == old(self)@.after(Event::SetRuntime { runtime: None }),
            },
    {
        match runtime {
            Ok(runtime) => {
                if self.handle.is_some() {
                    self.dvrt_context = Some(runtime);
                }
                Ok(())
            },
            Err(reason) => Err(Error::WrapperError(reason)),
        }
    }

    /// Takes the engine's answer to the unloading of the model. The bytes of the
    /// model are dropped once the engine has let go of it, and not before: a
    /// refusal leaves the record as it was and is returned as the failure. So
    /// does any answer that comes after the handle has been handed out: from
    /// then on the bytes stay until the record itself is dropped.
    pub fn unload_model(&mut self, status: Status) -> (result: Result<(), Error>)
        ensures
            result_view(result) == status.outcome(),
            final(self)@ == old(self)@.after(Event::UnloadModel { accepted: status.succeeded() }),
    {
        match status.result() {
            Ok(()) => {
                if self.handle.is_some() {
                    self.model = Vec::new();
                }
                Ok(())
            },
            Err(error) => Err(error),
        }
    }

    /// The bytes of the loaded model.
    pub fn model(&self) -> (result: Result<&[u8], Error>)
        ensures
            match result {
                Ok(bytes) => self@.model.len() > 0 && bytes@ == self@.model,
                Err(error) => self@.model.len() == 0 && error@ == ErrorView::Wrapper(
                    no_model_text(),
                ),
            },
    {
        if self.model.is_empty() {
            Err(Error::WrapperError("No model available".to_owned()))
        } else {
            Ok(self.model.as_slice())
        }
    }

    /// The embedded runtime, to work on it.
    pub fn dvrt_context(&mut self) -> (result: Result<&mut R, Error>)
        ensures
            match old(self)@.runtime {
                Some(runtime) => result matches Ok(r) && *r == runtime && final(self)@ == (
                ContextView { runtime: Some(*final(r)), ..old(self)@ }),
                None => result matches Err(error) && error@ == ErrorView::Wrapper(
                    no_runtime_text(),
                ) && final(self)@ == old(self)@,
            },
    {
        match &mut self.dvrt_context {
            Some(runtime) => Ok(runtime),
            None => Err(Error::WrapperError("No DeepViewRT context".to_owned())),
        }
    }

    /// The embedded runtime, to read from it.
    pub fn dvrt_context_const(&self) -> (result: Result<&R, Error>)
        ensures
            match self@.runtime {
                Some(runtime) => result matches Ok(r) && *r == runtime,
                None => result matches Err(error) && error@ == ErrorView::Wrapper(
                    no_runtime_text(),
                ),
            },
    {
        match &self.dvrt_context {
            Some(runtime) => Ok(runtime),
            None => Err(Error::WrapperError("No DeepViewRT context".to_owned())),
        }
    }

    /// Marshals the path of an image file for the engine to decode. A path with
    /// a zero byte in it is refused, so that no call is made with it.
    pub fn load_image_file(&self, filename: &str) -> (result: Result<NativeString, Error>)
        ensures
            match result {
                Ok(path) => marshaled(filename.spec_bytes()) == Ok::<Seq<u8>, ErrorView>(path@),
                Err(error) => marshaled(filename.spec_bytes()) == Err::<Seq<u8>, ErrorView>(
                    error@,
                ),
            },
    {
        NativeString::new(filename)
    }

    /// Takes the engine's answer to a frame handed over by its buffer handle.
    pub fn load_frame_dmabuf(&self, status: Status) -> (result: Result<(), Error>)
        ensures
            result_view(result) == status.outcome(),
    {
        status.result()
    }

    /// Takes the engine's answer to one run of inference. Whether a model is
    /// loaded is the engine's to judge: the record is not consulted.
    pub fn run_model(&self, status: Status) -> (result: Result<(), Error>)
        ensures
            result_view(result) == status.outcome(),
    {
        status.result()
    }

    /// Hands the handle out, to be released. It does so once: after that the
    /// record holds no handle, and asking again gives nothing.
    pub fn release(&mut self) -> (handle: Option<H>)
        ensures
            handle == old(self)@.handed_out(Event::Release),
            final(self)@ == old(self)@.after(Event::Release),
    {
        self.handle.take()
    }
}

} // verus!
