use vstd::prelude::*;
use vstd::string::*;

use crate::text::{decimal, decimal_text};

verus! {

/// The arguments of the `sync` and `upload` commands: a path, `.` by default.
#[derive(Debug, Clone)]
pub struct SyncArgs {
    pub path: String,
}

/// The commands of the command-line client.
#[derive(Debug, Clone)]
pub enum Commands {
    /// Download the server's test file into `<path>/test`.
    Sync(SyncArgs),
    /// Pack `<path>` into a tar archive and upload it.
    Upload(SyncArgs),
}

/// The parsed command line.
#[derive(Debug, Clone)]
pub struct Cli {
    pub command: Commands,
}

/// Where the download comes from.
pub open spec fn download_url() -> Seq<char> {
    "http://localhost:3000/api/v1/test"@
}

/// Where uploads go.
pub open spec fn upload_url() -> Seq<char> {
    "http://localhost:3000/api/v1/upload"@
}

/// The directory under the given path that downloads go to.
pub open spec fn download_subdirectory() -> Seq<char> {
    "test"@
}

/// The work that a command stands for.
#[derive(Debug, Clone)]
pub enum CommandPlan {
    /// Fetch `url` and write it into `subdirectory` of `base`.
    Download { url: String, base: String, subdirectory: String },
    /// Send a tar archive of `path` to `url`.
    Upload { url: String, path: String },
}

/// Dispatches a command to the work it stands for.
pub fn run(cli: Cli) -> (r: CommandPlan)
    ensures
        cli.command matches Commands::Sync(args) ==> r matches CommandPlan::Download { url, base, subdirectory }
            && url@ == download_url() && base == args.path && subdirectory@ == download_subdirectory(),
        cli.command matches Commands::Upload(args) ==> r matches CommandPlan::Upload { url, path }
            && url@ == upload_url() && path == args.path,
{
    match cli.command {
        Commands::Sync(args) => CommandPlan::Download {
            url: String::from_str("http://localhost:3000/api/v1/test"),
            base: args.path,
            subdirectory: String::from_str("test"),
        },
        Commands::Upload(args) => CommandPlan::Upload {
            url: String::from_str("http://localhost:3000/api/v1/upload"),
            path: args.path,
        },
    }
}

/// The name of a received file, stamped with the time in milliseconds.
pub fn output_file_name(timestamp_ms: u128) -> (r: String)
    ensures
        r@ == "output_file_"@ + decimal_text(timestamp_ms as nat),
{
    let mut s = String::from_str("output_file_");
    let digits = decimal(timestamp_ms);
    s.append(digits.as_str());
    s
}

/// How much of a download has arrived, and how much is expected.
pub struct DownloadProgress {
    pub downloaded: u64,
    pub total: Option<u64>,
}

impl DownloadProgress {
    /// Nothing arrived yet.
    pub fn new(total: Option<u64>) -> (r: Self)
        ensures
            r.downloaded == 0,
            r.total == total,
    {
        DownloadProgress { downloaded: 0, total }
    }

    /// Counts `bytes` more.
    pub fn record(&mut self, bytes: u64)
        requires
            old(self).downloaded + bytes <= u64::MAX,
        ensures
            final(self).downloaded == old(self).downloaded + bytes,
            final(self).total == old(self).total,
    {
        self.downloaded = self.downloaded + bytes;
    }
}

} // verus!
