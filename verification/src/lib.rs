//! A small operations daemon: commands that run in the background and are
//! described or stopped by identifier, SFTP sessions, and SSH sessions carried
//! over a websocket. The modules here hold the rules of the daemon; the sockets,
//! files and child processes around them live in the program that uses them.

pub mod async_fs_stream;
pub mod command;
pub mod command_laws;
pub mod command_promises;
pub mod interrupt;
pub mod name_map;
pub mod server;
pub mod server_promises;
pub mod sftp;
pub mod sftp_laws;
pub mod sftp_promises;
pub mod stream;
pub mod stream_laws;
pub mod stream_promises;
