//! Configuration of the callback writer.

use vstd::prelude::*;

use crate::def::NOTSET;
use crate::error::LoggingError;
use crate::filter::check_filter;
use crate::filter::filter_valid;

verus! {

/// What reaches the callback writer: a message (level, domain, message),
/// a request to confirm that what came before is handled, or the end.
#[derive(Debug)]
pub enum CallbackTypeEnum {
    Message((u8, String, String)),
    Sync,
    Stop,
}

/// A function that receives each message of a callback writer: level,
/// domain and message.
pub trait CallbackFnT: Send + Sync {
    fn call(&self, level: u8, domain: String, message: String) -> Result<(), LoggingError>;
}

impl<F: Fn(u8, String, String) -> Result<(), LoggingError> + Send + Sync> CallbackFnT for F {
    /// Calls the closure with the message and hands back what it returns.
    fn call(&self, level: u8, domain: String, message: String) -> (r: Result<(), LoggingError>)
        ensures
            call_requires(*self, (level, domain, message)) ==> call_ensures(
                *self,
                (level, domain, message),
                r,
            ),
    {
        invoke_callback(self, level, domain, message)
    }
}

/// Calls a closure that the user handed in with the level, domain and
/// message, and returns what it returns. Nothing is known of what the
/// closure does; where its own precondition holds of these arguments, the
/// result is one its own contract allows.
#[verifier::external_body]
fn invoke_callback<F: Fn(u8, String, String) -> Result<(), LoggingError>>(
    f: &F,
    level: u8,
    domain: String,
    message: String,
) -> (r: Result<(), LoggingError>)
    ensures
        call_requires(*f, (level, domain, message)) ==> call_ensures(*f, (level, domain, message), r),
{
    f(level, domain, message)
}

pub type CallbackFn = Box<dyn CallbackFnT>;

pub struct CallbackWriterConfig {
    pub enabled: bool,
    pub level: u8,
    pub domain_filter: Option<String>,
    pub message_filter: Option<String>,
    pub callback: Option<std::sync::Arc<CallbackFn>>,
}

/// Shares a callback: `Arc::clone` gives a handle to the same function.
#[verifier::external_body]
fn share_callback(cb: &std::sync::Arc<CallbackFn>) -> (r: std::sync::Arc<CallbackFn>)
    ensures
        r == *cb,
{
    std::sync::Arc::clone(cb)
}

impl CallbackWriterConfig {
    pub fn new(level: u8, callback: Option<CallbackFn>) -> (r: Self)
        ensures
            r.enabled,
            r.level == level,
            r.domain_filter is None,
            r.message_filter is None,
            r.callback is Some <==> callback is Some,
    {
        let callback = match callback {
            Some(f) => Some(std::sync::Arc::new(f)),
            None => None,
        };
        CallbackWriterConfig {
            enabled: true,
            level,
            domain_filter: None,
            message_filter: None,
            callback,
        }
    }

    pub fn duplicate(&self) -> (r: Self)
        ensures
            r == *self,
    {
        let callback = match &self.callback {
            Some(f) => Some(share_callback(f)),
            None => None,
        };
        CallbackWriterConfig {
            enabled: self.enabled,
            level: self.level,
            domain_filter: crate::def::clone_opt_string(&self.domain_filter),
            message_filter: crate::def::clone_opt_string(&self.message_filter),
            callback,
        }
    }

    /// Sets the domain filter after checking that it is a valid regular
    /// expression; on refusal nothing changes.
    pub fn set_domain_filter(&mut self, domain_filter: Option<String>) -> (r: Result<
        (),
        regex::Error,
    >)
        ensures
            r is Ok <==> filter_valid(domain_filter),
            r is Ok ==> final(self).domain_filter == domain_filter,
            r is Err ==> final(self).domain_filter == old(self).domain_filter,
            final(self).enabled == old(self).enabled,
            final(self).level == old(self).level,
            final(self).message_filter == old(self).message_filter,
            final(self).callback == old(self).callback,
    {
        match check_filter(&domain_filter) {
            Ok(()) => {
                self.domain_filter = domain_filter;
                Ok(())
            },
            Err(e) => Err(e),
        }
    }

    /// Sets the message filter after checking that it is a valid regular
    /// expression; on refusal nothing changes.
    pub fn set_message_filter(&mut self, message_filter: Option<String>) -> (r: Result<
        (),
        regex::Error,
    >)
        ensures
            r is Ok <==> filter_valid(message_filter),
            r is Ok ==> final(self).message_filter == message_filter,
            r is Err ==> final(self).message_filter == old(self).message_filter,
            final(self).enabled == old(self).enabled,
            final(self).level == old(self).level,
            final(self).domain_filter == old(self).domain_filter,
            final(self).callback == old(self).callback,
    {
        match check_filter(&message_filter) {
            Ok(()) => {
                self.message_filter = message_filter;
                Ok(())
            },
            Err(e) => Err(e),
        }
    }
}

impl Default for CallbackWriterConfig {
    fn default() -> (r: Self)
        ensures
            r.enabled,
            r.level == NOTSET,
            r.domain_filter is None,
            r.message_filter is None,
            r.callback is None,
    {
        CallbackWriterConfig {
            enabled: true,
            level: NOTSET,
            domain_filter: None,
            message_filter: None,
            callback: None,
        }
    }
}

} // verus!
