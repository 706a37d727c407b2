use vstd::prelude::*;

verus! {

/// The HTTP subcommands, with their parsed options.
#[derive(Debug)]
pub enum HTTPSubCommand {
    Serve(HTTPServeOpts),
}

/// Options for serving a directory over HTTP: the directory to serve and
/// the port to listen on.
#[derive(Debug)]
pub struct HTTPServeOpts {
    pub dir: String,
    pub port: u16,
}

} // verus!
