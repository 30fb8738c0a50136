//! The HTTP server tuning the node starts its server with.
//!
//! The server itself is an outside collaborator; the core only computes the
//! parameter set it is configured with, as plain values. Enabling a secure
//! port trades sockets for stack: the task stack grows and the open-socket
//! budget shrinks, and least-recently-used purging of connections turns on.

use vstd::prelude::*;

verus! {

/// The parameter set the embedded HTTP server is started with.
pub struct ServerTuning {
    pub task_priority: u32,
    pub stack_size: u32,
    pub core_id: i32,
    pub server_port: u16,
    pub ctrl_port: u16,
    pub max_open_sockets: u16,
    pub max_uri_handlers: u16,
    pub max_resp_headers: u16,
    pub backlog_conn: u16,
    pub lru_purge_enable: bool,
    pub recv_wait_timeout: u16,
    pub send_wait_timeout: u16,
    pub enable_so_linger: bool,
    pub linger_timeout: u16,
}

/// The default tuning for the given plain and secure ports. A non-zero
/// secure port selects the larger stack, the smaller socket budget, and
/// connection purging.
pub fn server_tuning(http_port: u16, https_port: u16) -> (t: ServerTuning)
    ensures
        t.task_priority == 5,
        t.stack_size == (if https_port != 0 { 10240u32 } else { 4096u32 }),
        t.core_id == i32::MAX,
        t.server_port == http_port,
        t.ctrl_port == 32768,
        t.max_open_sockets == (if https_port != 0 { 4u16 } else { 7u16 }),
        t.max_uri_handlers == 8,
        t.max_resp_headers == 8,
        t.backlog_conn == 5,
        t.lru_purge_enable == (https_port != 0),
        t.recv_wait_timeout == 5,
        t.send_wait_timeout == 5,
        t.enable_so_linger,
        t.linger_timeout == 10,
{
    ServerTuning {
        task_priority: 5,
        stack_size: if https_port != 0 { 10240 } else { 4096 },
        core_id: i32::MAX,
        server_port: http_port,
        ctrl_port: 32768,
        max_open_sockets: if https_port != 0 { 4 } else { 7 },
        max_uri_handlers: 8,
        max_resp_headers: 8,
        backlog_conn: 5,
        lru_purge_enable: https_port != 0,
        recv_wait_timeout: 5,
        send_wait_timeout: 5,
        enable_so_linger: true,
        linger_timeout: 10,
    }
}

} // verus!
