//! The command-line options of the server and their validation.

use vstd::prelude::*;

use crate::logger::LogLevel;

verus! {

/// The most worker threads the server may be started with.
pub const THREAD_LIMIT: usize = 8;

/// Why the command line was refused.
#[derive(Debug)]
pub enum CliError {
    /// More worker threads were asked for than `THREAD_LIMIT`.
    ThreadLimit(usize),
    /// The address is not a socket address (`ip:port`).
    InvaidAddress(String),
}

/// The server's command-line options.
pub struct Cli {
    /// Size of the asynchronous worker pool.
    pub num_threads: usize,
    /// Log and tracing level.
    pub log_level: LogLevel,
    /// Address the server listens on.
    pub address: String,
    /// Endpoint of the trace collector.
    pub otlp_url: String,
}

impl Default for Cli {
    /// No threads, the default level and empty addresses.
    fn default() -> (r: Self)
        ensures
            r.num_threads == 0,
            r.log_level == LogLevel::Debug,
            r.address@ == Seq::<char>::empty(),
            r.otlp_url@ == Seq::<char>::empty(),
    {
        Cli {
            num_threads: 0,
            log_level: LogLevel::default(),
            address: String::new(),
            otlp_url: String::new(),
        }
    }
}

/// The options are accepted: the thread count is within the limit and the
/// address is a socket address.
pub open spec fn cli_is_valid(num_threads: usize, address_is_socket_addr: bool) -> bool {
    num_threads <= THREAD_LIMIT && address_is_socket_addr
}

impl Cli {
    /// Checks the options. The thread count is checked first: a count over
    /// `THREAD_LIMIT` is refused whatever the address. Then the address must
    /// be a socket address; `address_is_socket_addr` says whether
    /// `self.address` parses as one (`ip:port`, the IPv6 address in
    /// brackets).
    pub fn validate(&self, address_is_socket_addr: bool) -> (r: Result<(), CliError>)
        ensures
            r is Ok <==> cli_is_valid(self.num_threads, address_is_socket_addr),
            self.num_threads > THREAD_LIMIT ==> (r matches Err(CliError::ThreadLimit(n))
                && n == self.num_threads),
            self.num_threads <= THREAD_LIMIT && !address_is_socket_addr ==> (r matches Err(
                CliError::InvaidAddress(a),
            ) && a@ == self.address@),
            self.num_threads <= 8 && address_is_socket_addr ==> r is Ok,
            r matches Err(CliError::ThreadLimit(n)) ==> (self.num_threads > 8 && n
                == self.num_threads),
            r matches Err(CliError::InvaidAddress(a)) ==> (self.num_threads <= 8
                && !address_is_socket_addr && a@ == self.address@),
    {
        if self.num_threads > THREAD_LIMIT {
            return Err(CliError::ThreadLimit(self.num_threads));
        }
        if !address_is_socket_addr {
            return Err(CliError::InvaidAddress(self.address.clone()));
        }
        Ok(())
    }
}

/// The options are accepted exactly when at most eight threads are asked
/// for and the address is a socket address.
pub proof fn lemma_cli_valid_exactly(num_threads: usize, address_is_socket_addr: bool)
    ensures
        cli_is_valid(num_threads, address_is_socket_addr) <==> (num_threads <= 8
            && address_is_socket_addr),
{
}

} // verus!
