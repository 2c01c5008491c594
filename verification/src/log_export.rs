//! Packing the logs for a bug report: the whole log directory and `config.toml` go into
//! `qingjian-logs-<date>.zip` on the desktop, compressed by PowerShell's `Compress-Archive`
//! (the desktop path is also left to PowerShell, since OneDrive may move it), and Explorer then
//! selects the archive.

use vstd::prelude::*;

verus! {

/// The archive's name for a date written `YYYY-MM-DD`.
pub open spec fn zip_name(date: Seq<char>) -> Seq<char> {
    "qingjian-logs-"@ + date + ".zip"@
}

/// The `-Path` argument: everything in the log directory, then the configuration file if any.
pub open spec fn sources(logs: Seq<char>, config: Option<Seq<char>>) -> Seq<char> {
    let dir = "'"@ + logs + "\\*'"@;
    match config {
        Some(c) => dir + ","@ + "'"@ + c + "'"@,
        None => dir,
    }
}

/// The PowerShell script that builds the archive and shows it.
pub open spec fn export_script_spec(logs: Seq<char>, config: Option<Seq<char>>, date: Seq<char>) -> Seq<char> {
    "$zip = Join-Path ([Environment]::GetFolderPath('Desktop')) '"@ + zip_name(date) + "'\n"@
        + "Compress-Archive -Path "@ + sources(logs, config) + " -DestinationPath $zip -Force\n"@
        + "explorer.exe \"/select,`\"$zip`\"\"\n"@
}

/// The script for the log directory `logs`, the configuration file `config` (when it exists)
/// and today's date.
pub fn export_script(logs: &str, config: Option<&str>, date: &str) -> (r: String)
    ensures
        r@ == export_script_spec(logs@, match config {
            Some(c) => Some(c@),
            None => None,
        }, date@),
{
    let mut s = String::from_str("$zip = Join-Path ([Environment]::GetFolderPath('Desktop')) '");
    s.append("qingjian-logs-");
    s.append(date);
    s.append(".zip");
    s.append("'\n");
    s.append("Compress-Archive -Path ");
    s.append("'");
    s.append(logs);
    s.append("\\*'");
    match config {
        Some(c) => {
            s.append(",");
            s.append("'");
            s.append(c);
            s.append("'");
        },
        None => {},
    }
    s.append(" -DestinationPath $zip -Force\n");
    s.append("explorer.exe \"/select,`\"$zip`\"\"\n");
    let ghost cfg = match config {
        Some(c) => Some(c@),
        None => None,
    };
    assert(s@ =~= export_script_spec(logs@, cfg, date@));
    s
}

} // verus!
