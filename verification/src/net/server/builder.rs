//! A server's settings as they are put together before it starts, and the builders for its TCP
//! and Windows pipe variants.
use vstd::prelude::*;

use crate::net::server::config::ServerConfig;

verus! {

/// A server that has not started yet: its configuration and the handler of its requests.
pub struct Server<T> {
    /// Configuration of the server
    pub config: ServerConfig,
    /// Handler of the requests the server receives
    pub handler: T,
}

impl Server<()> {
    /// A server with the default configuration and no handler yet.
    pub fn new() -> (r: Server<()>)
        ensures
            r.config == ServerConfig::default_spec(),
    {
        Server { config: ServerConfig::default(), handler: () }
    }
}

impl<T> Server<T> {
    /// Replaces the configuration of the server.
    pub fn config(self, config: ServerConfig) -> (r: Server<T>)
        ensures
            r.config == config,
            r.handler == self.handler,
    {
        Server { config, handler: self.handler }
    }

    /// Replaces the handler of the server, keeping its configuration.
    pub fn handler<U>(self, handler: U) -> (r: Server<U>)
        ensures
            r.config == self.config,
            r.handler == handler,
    {
        Server { config: self.config, handler }
    }

    /// Consume [`Server`] and produce a builder for a TCP variant.
    pub fn into_tcp_builder(self) -> (r: TcpServerBuilder<T>)
        ensures
            r.0 == self,
    {
        TcpServerBuilder(self)
    }

    /// Consume [`Server`] and produce a builder for a Windows pipe variant.
    pub fn into_windows_pipe_builder(self) -> (r: WindowsPipeServerBuilder<T>)
        ensures
            r.0 == self,
    {
        WindowsPipeServerBuilder(self)
    }
}

/// Builder of a server that listens on TCP.
pub struct TcpServerBuilder<T>(pub Server<T>);

impl Default for TcpServerBuilder<()> {
    fn default() -> (r: TcpServerBuilder<()>)
        ensures
            r.0.config == ServerConfig::default_spec(),
    {
        TcpServerBuilder(Server::new())
    }
}

impl<T> TcpServerBuilder<T> {
    /// Replaces the configuration of the server.
    pub fn config(self, config: ServerConfig) -> (r: Self)
        ensures
            r.0.config == config,
            r.0.handler == self.0.handler,
    {
        TcpServerBuilder(self.0.config(config))
    }

    /// Replaces the handler of the server, keeping its configuration.
    pub fn handler<U>(self, handler: U) -> (r: TcpServerBuilder<U>)
        ensures
            r.0.config == self.0.config,
            r.0.handler == handler,
    {
        TcpServerBuilder(self.0.handler(handler))
    }
}

/// Builder of a server that listens on a Windows named pipe.
pub struct WindowsPipeServerBuilder<T>(pub Server<T>);

impl Default for WindowsPipeServerBuilder<()> {
    fn default() -> (r: WindowsPipeServerBuilder<()>)
        ensures
            r.0.config == ServerConfig::default_spec(),
    {
        WindowsPipeServerBuilder(Server::new())
    }
}

impl<T> WindowsPipeServerBuilder<T> {
    /// Replaces the configuration of the server.
    pub fn config(self, config: ServerConfig) -> (r: Self)
        ensures
            r.0.config == config,
            r.0.handler == self.0.handler,
    {
        WindowsPipeServerBuilder(self.0.config(config))
    }

    /// Replaces the handler of the server, keeping its configuration.
    pub fn handler<U>(self, handler: U) -> (r: WindowsPipeServerBuilder<U>)
        ensures
            r.0.config == self.0.config,
            r.0.handler == handler,
    {
        WindowsPipeServerBuilder(self.0.handler(handler))
    }
}

} // verus!
