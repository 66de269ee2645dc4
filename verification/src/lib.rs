//! Native side of the CueMesh desktop shell: the commands that the UI layer
//! can invoke, stated as functions from a request to its reply.
//!
//! Nothing here talks to the host framework. A handler computes the reply and
//! the notification that is owed to the UI layer; the shell around this
//! library delivers it.

pub mod commands;
