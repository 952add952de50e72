//! Reading back what the system reports: which tweaks are applied and which
//! package manager entries are installed.
use vstd::prelude::*;
use crate::command::{CommandOutput, stdout_text};
use crate::tweaks::{Tweak, tweak_id, revert_script_text};
use crate::text::{contains_seq, occurs_at, chars_of, dedup, distinct, lemma_dedup, split_words, string_views, trim, trimmed, words};

verus! {

/// The PowerShell script that prints, as JSON, the identifiers of the tweaks
/// that are in effect.
pub const DETECTION_SCRIPT: &'static str = r#"
        $applied = @()
        $ErrorActionPreference = 'SilentlyContinue'

        if (-not (Get-AppxPackage -Name "Microsoft.3DBuilder" -AllUsers)) { $applied += "Opt.Debloat" }

        $activeScheme = powercfg /getactivescheme
        if ($activeScheme -like "*Ultimate Performance*" -or $activeScheme -like "*High Performance*") { $applied += "Opt.HighPerf" }

        $fx = Get-ItemProperty -Path "HKCU:\Software\Microsoft\Windows\CurrentVersion\Explorer\VisualEffects" -Name "VisualFXSetting"
        if ($fx -and $fx.VisualFXSetting -eq 2) { $applied += "Opt.VisualEffects" }

        $tcp = netsh int tcp show global
        if ($tcp -like "*autotuninglevel=normal*" -and $tcp -like "*chimney=enabled*") { $applied += "Opt.NetworkTweak" }

        $run = Get-ItemProperty -Path "HKCU:\Software\Microsoft\Windows\CurrentVersion\Run"
        if ($run -and -not $run.OneDrive -and -not $run."com.squirrel.Teams.Teams") { $applied += "Opt.DisableStartup" }

        $theme = Get-ItemProperty -Path "HKCU:\Software\Microsoft\Windows\CurrentVersion\Themes\Personalize"
        if ($theme -and $theme.AppsUseLightTheme -eq 0 -and $theme.SystemUsesLightTheme -eq 0) { $applied += "Opt.DarkMode" }

        $diagTrack = Get-Service -Name "DiagTrack"
        $telReg = Get-ItemProperty -Path "HKLM:\SOFTWARE\Policies\Microsoft\Windows\DataCollection" -Name "AllowTelemetry"
        if (($diagTrack -and $diagTrack.StartType -eq "Disabled") -or ($telReg -and $telReg.AllowTelemetry -eq 0)) { $applied += "Opt.Telemetry" }

        $edge = Get-ItemProperty -Path "HKCU:\Software\Policies\Microsoft\Edge"
        if ($edge -and $edge.DefaultBrowserSettingEnabled -eq 0) { $applied += "Opt.DefaultBrowserPrompt" }

        $hib = Get-ItemProperty -Path "HKLM:\SYSTEM\CurrentControlSet\Control\Power" -Name "HibernateEnabled"
        if ($hib -and $hib.HibernateEnabled -eq 0) { $applied += "Opt.DisableHibernate" }

        $cortana = Get-ItemProperty -Path "HKLM:\SOFTWARE\Policies\Microsoft\Windows\Windows Search" -Name "AllowCortana"
        if ($cortana -and $cortana.AllowCortana -eq 0) { $applied += "Opt.DisableCortana" }

        $dvr = Get-ItemProperty -Path "HKCU:\System\GameConfigStore" -Name "GameDVR_Enabled"
        if ($dvr -and $dvr.GameDVR_Enabled -eq 0) { $applied += "Opt.DisableGameDVR" }

        $dns = Get-DnsClientServerAddress -AddressFamily IPv4
        if ($dns.ServerAddresses -contains "1.1.1.1") { $applied += "Opt.CloudflareDns" }

        $wsearch = Get-Service -Name "WSearch"
        if ($wsearch -and $wsearch.StartType -eq "Disabled") { $applied += "Opt.DisableIndexing" }

        $desktop = [System.IO.Path]::Combine([Environment]::GetFolderPath('Desktop'), 'GodMode.{ED7BA470-8E54-465E-825C-99712043E01C}')
        if (Test-Path $desktop) { $applied += "Opt.GodMode" }

        $flushDns = [System.IO.Path]::Combine([Environment]::GetFolderPath('Desktop'), "Flush DNS.bat")
        if (Test-Path $flushDns) { $applied += "Opt.FlushDNS" }

        if (Get-ScheduledTask -TaskName "WinForgeDailyCleanup") { $applied += "Opt.ScheduleCleanup" }

        if ($applied.Count -eq 0) { "[]" } else { ConvertTo-Json -InputObject @($applied) -Compress }
    "#;

/// The statement by which the detection script reports the tweak named `id`.
pub open spec fn detection_entry(id: Seq<char>) -> Seq<char> {
    "$applied += \""@ + id + "\""@
}

/// Every tweak that can be reverted is looked for by the detection script
/// under its own identifier, so that once applied it is reported and can be
/// offered for reverting.
pub proof fn lemma_revertible_tweaks_are_detected(t: Tweak)
    requires
        revert_script_text(t) is Some,
    ensures
        contains_seq(DETECTION_SCRIPT@, detection_entry(tweak_id(t))),
{
    reveal_strlit(r#"
        $applied = @()
        $ErrorActionPreference = 'SilentlyContinue'

        if (-not (Get-AppxPackage -Name "Microsoft.3DBuilder" -AllUsers)) { $applied += "Opt.Debloat" }

        $activeScheme = powercfg /getactivescheme
        if ($activeScheme -like "*Ultimate Performance*" -or $activeScheme -like "*High Performance*") { $applied += "Opt.HighPerf" }

        $fx = Get-ItemProperty -Path "HKCU:\Software\Microsoft\Windows\CurrentVersion\Explorer\VisualEffects" -Name "VisualFXSetting"
        if ($fx -and $fx.VisualFXSetting -eq 2) { $applied += "Opt.VisualEffects" }

        $tcp = netsh int tcp show global
        if ($tcp -like "*autotuninglevel=normal*" -and $tcp -like "*chimney=enabled*") { $applied += "Opt.NetworkTweak" }

        $run = Get-ItemProperty -Path "HKCU:\Software\Microsoft\Windows\CurrentVersion\Run"
        if ($run -and -not $run.OneDrive -and -not $run."com.squirrel.Teams.Teams") { $applied += "Opt.DisableStartup" }

        $theme = Get-ItemProperty -Path "HKCU:\Software\Microsoft\Windows\CurrentVersion\Themes\Personalize"
        if ($theme -and $theme.AppsUseLightTheme -eq 0 -and $theme.SystemUsesLightTheme -eq 0) { $applied += "Opt.DarkMode" }

        $diagTrack = Get-Service -Name "DiagTrack"
        $telReg = Get-ItemProperty -Path "HKLM:\SOFTWARE\Policies\Microsoft\Windows\DataCollection" -Name "AllowTelemetry"
        if (($diagTrack -and $diagTrack.StartType -eq "Disabled") -or ($telReg -and $telReg.AllowTelemetry -eq 0)) { $applied += "Opt.Telemetry" }

        $edge = Get-ItemProperty -Path "HKCU:\Software\Policies\Microsoft\Edge"
        if ($edge -and $edge.DefaultBrowserSettingEnabled -eq 0) { $applied += "Opt.DefaultBrowserPrompt" }

        $hib = Get-ItemProperty -Path "HKLM:\SYSTEM\CurrentControlSet\Control\Power" -Name "HibernateEnabled"
        if ($hib -and $hib.HibernateEnabled -eq 0) { $applied += "Opt.DisableHibernate" }

        $cortana = Get-ItemProperty -Path "HKLM:\SOFTWARE\Policies\Microsoft\Windows\Windows Search" -Name "AllowCortana"
        if ($cortana -and $cortana.AllowCortana -eq 0) { $applied += "Opt.DisableCortana" }

        $dvr = Get-ItemProperty -Path "HKCU:\System\GameConfigStore" -Name "GameDVR_Enabled"
        if ($dvr -and $dvr.GameDVR_Enabled -eq 0) { $applied += "Opt.DisableGameDVR" }

        $dns = Get-DnsClientServerAddress -AddressFamily IPv4
        if ($dns.ServerAddresses -contains "1.1.1.1") { $applied += "Opt.CloudflareDns" }

        $wsearch = Get-Service -Name "WSearch"
        if ($wsearch -and $wsearch.StartType -eq "Disabled") { $applied += "Opt.DisableIndexing" }

        $desktop = [System.IO.Path]::Combine([Environment]::GetFolderPath('Desktop'), 'GodMode.{ED7BA470-8E54-465E-825C-99712043E01C}')
        if (Test-Path $desktop) { $applied += "Opt.GodMode" }

        $flushDns = [System.IO.Path]::Combine([Environment]::GetFolderPath('Desktop'), "Flush DNS.bat")
        if (Test-Path $flushDns) { $applied += "Opt.FlushDNS" }

        if (Get-ScheduledTask -TaskName "WinForgeDailyCleanup") { $applied += "Opt.ScheduleCleanup" }

        if ($applied.Count -eq 0) { "[]" } else { ConvertTo-Json -InputObject @($applied) -Compress }
    "#);
    reveal_strlit("$applied += \"");
    reveal_strlit("\"");
    match t {
        Tweak::Debloat => {
            reveal_strlit("Opt.Debloat");
            assert(DETECTION_SCRIPT@.subrange(153, 178) =~= detection_entry(tweak_id(t)));
            assert(occurs_at(DETECTION_SCRIPT@, detection_entry(tweak_id(t)), 153));
        },
        Tweak::HighPerf => {
            reveal_strlit("Opt.HighPerf");
            assert(DETECTION_SCRIPT@.subrange(337, 363) =~= detection_entry(tweak_id(t)));
            assert(occurs_at(DETECTION_SCRIPT@, detection_entry(tweak_id(t)), 337));
        },
        Tweak::VisualEffects => {
            reveal_strlit("Opt.VisualEffects");
            assert(DETECTION_SCRIPT@.subrange(551, 582) =~= detection_entry(tweak_id(t)));
            assert(occurs_at(DETECTION_SCRIPT@, detection_entry(tweak_id(t)), 551));
        },
        Tweak::NetworkTweak => {
            reveal_strlit("Opt.NetworkTweak");
            assert(DETECTION_SCRIPT@.subrange(716, 746) =~= detection_entry(tweak_id(t)));
            assert(occurs_at(DETECTION_SCRIPT@, detection_entry(tweak_id(t)), 716));
        },
        Tweak::DisableStartup => {
            reveal_strlit("Opt.DisableStartup");
            assert(DETECTION_SCRIPT@.subrange(928, 960) =~= detection_entry(tweak_id(t)));
            assert(occurs_at(DETECTION_SCRIPT@, detection_entry(tweak_id(t)), 928));
        },
        Tweak::DarkMode => {
            reveal_strlit("Opt.DarkMode");
            assert(DETECTION_SCRIPT@.subrange(1170, 1196) =~= detection_entry(tweak_id(t)));
            assert(occurs_at(DETECTION_SCRIPT@, detection_entry(tweak_id(t)), 1170));
        },
        Tweak::Telemetry => {
            reveal_strlit("Opt.Telemetry");
            assert(DETECTION_SCRIPT@.subrange(1491, 1518) =~= detection_entry(tweak_id(t)));
            assert(occurs_at(DETECTION_SCRIPT@, detection_entry(tweak_id(t)), 1491));
        },
        Tweak::DefaultBrowserPrompt => {
            reveal_strlit("Opt.DefaultBrowserPrompt");
            assert(DETECTION_SCRIPT@.subrange(1669, 1707) =~= detection_entry(tweak_id(t)));
            assert(occurs_at(DETECTION_SCRIPT@, detection_entry(tweak_id(t)), 1669));
        },
        Tweak::DisableHibernate => {
            reveal_strlit("Opt.DisableHibernate");
            assert(DETECTION_SCRIPT@.subrange(1874, 1908) =~= detection_entry(tweak_id(t)));
            assert(occurs_at(DETECTION_SCRIPT@, detection_entry(tweak_id(t)), 1874));
        },
        Tweak::DisableCortana => {
            reveal_strlit("Opt.DisableCortana");
            assert(DETECTION_SCRIPT@.subrange(2091, 2123) =~= detection_entry(tweak_id(t)));
            assert(occurs_at(DETECTION_SCRIPT@, detection_entry(tweak_id(t)), 2091));
        },
        Tweak::DisableGameDVR => {
            reveal_strlit("Opt.DisableGameDVR");
            assert(DETECTION_SCRIPT@.subrange(2272, 2304) =~= detection_entry(tweak_id(t)));
            assert(occurs_at(DETECTION_SCRIPT@, detection_entry(tweak_id(t)), 2272));
        },
        Tweak::CloudflareDns => {
            reveal_strlit("Opt.CloudflareDns");
            assert(DETECTION_SCRIPT@.subrange(2426, 2457) =~= detection_entry(tweak_id(t)));
            assert(occurs_at(DETECTION_SCRIPT@, detection_entry(tweak_id(t)), 2426));
        },
        Tweak::DisableIndexing => {
            reveal_strlit("Opt.DisableIndexing");
            assert(DETECTION_SCRIPT@.subrange(2571, 2604) =~= detection_entry(tweak_id(t)));
            assert(occurs_at(DETECTION_SCRIPT@, detection_entry(tweak_id(t)), 2571));
        },
        Tweak::GodMode => {
            reveal_strlit("Opt.GodMode");
            assert(DETECTION_SCRIPT@.subrange(2778, 2803) =~= detection_entry(tweak_id(t)));
            assert(occurs_at(DETECTION_SCRIPT@, detection_entry(tweak_id(t)), 2778));
        },
        Tweak::FlushDNS => {
            reveal_strlit("Opt.FlushDNS");
            assert(DETECTION_SCRIPT@.subrange(2946, 2972) =~= detection_entry(tweak_id(t)));
            assert(occurs_at(DETECTION_SCRIPT@, detection_entry(tweak_id(t)), 2946));
        },
        Tweak::ScheduleCleanup => {
            reveal_strlit("Opt.ScheduleCleanup");
            assert(DETECTION_SCRIPT@.subrange(3042, 3075) =~= detection_entry(tweak_id(t)));
            assert(occurs_at(DETECTION_SCRIPT@, detection_entry(tweak_id(t)), 3042));
        },
        _ => {},
    }
}

/// What `serde_json::from_str::<Vec<String>>` makes of `text`: the strings of
/// a JSON array of strings, or `None` when `text` is not one.
pub uninterp spec fn json_string_array(text: Seq<char>) -> Option<Seq<Seq<char>>>;

/// What `serde_json::from_str::<String>` makes of `text`: the value of a JSON
/// string, or `None` when `text` is not one.
pub uninterp spec fn json_string(text: Seq<char>) -> Option<Seq<char>>;

/// `serde_json::from_str::<Vec<String>>`, with the error dropped. What it
/// accepts and how it unescapes is left to the name.
#[verifier::external_body]
fn parse_json_string_array(text: &str) -> (r: Option<Vec<String>>)
    ensures
        match r {
            Some(v) => json_string_array(text@) == Some(string_views(v@)),
            None => json_string_array(text@) is None,
        },
{
    serde_json::from_str::<Vec<String>>(text).ok()
}

/// `serde_json::from_str::<String>`, with the error dropped. What it accepts
/// and how it unescapes is left to the name.
#[verifier::external_body]
fn parse_json_string(text: &str) -> (r: Option<String>)
    ensures
        match r {
            Some(s) => json_string(text@) == Some(s@),
            None => json_string(text@) is None,
        },
{
    serde_json::from_str::<String>(text).ok()
}

/// How the trimmed output of the detection script was read.
pub enum DetectionReading {
    /// The output looked like a JSON array; the parse, if it succeeded.
    List(Option<Vec<String>>),
    /// The output looked like a single JSON string; the parse, if it succeeded.
    Single(Option<String>),
    /// The output was empty or looked like neither.
    Nothing,
}

/// The identifiers that a reading yields: a parsed list as it is, a parsed
/// string alone, and nothing otherwise.
pub open spec fn reading_ids(r: DetectionReading) -> Seq<Seq<char>> {
    match r {
        DetectionReading::List(Some(v)) => string_views(v@),
        DetectionReading::Single(Some(s)) => seq![s@],
        _ => seq![],
    }
}

/// The identifiers that `reading` yields.
pub fn ids_from_reading(reading: DetectionReading) -> (ids: Vec<String>)
    ensures
        string_views(ids@) == reading_ids(reading),
{
    match reading {
        DetectionReading::List(Some(v)) => v,
        DetectionReading::Single(Some(s)) => {
            let mut v: Vec<String> = Vec::new();
            v.push(s);
            assert(string_views(v@) =~= seq![s@]);
            v
        },
        _ => {
            let v: Vec<String> = Vec::new();
            assert(string_views(v@) =~= Seq::<Seq<char>>::empty());
            v
        },
    }
}

/// The applied tweaks that the detection output `out` reports: it is trimmed;
/// an opening `[` makes it a JSON array of identifiers and an opening `"` a
/// single identifier; whatever else, or a parse that fails, reports none.
pub open spec fn applied_ids(out: Seq<char>) -> Seq<Seq<char>> {
    let t = trim(out);
    if t.len() > 0 && t[0] == '[' {
        match json_string_array(t) {
            Some(v) => v,
            None => seq![],
        }
    } else if t.len() > 0 && t[0] == '"' {
        match json_string(t) {
            Some(s) => seq![s],
            None => seq![],
        }
    } else {
        seq![]
    }
}

/// What the detection output `out` reports once trimmed: every string of
/// the JSON array it holds, in order; the one JSON string it holds; and
/// nothing when it holds neither or does not parse.
pub open spec fn reports_parsed_ids(out: Seq<char>, ids: Seq<Seq<char>>) -> bool {
    let t = trim(out);
    &&& (t.len() > 0 && t[0] == '[') ==> match json_string_array(t) {
        Some(v) => ids == v,
        None => ids.len() == 0,
    }
    &&& (t.len() > 0 && t[0] == '"') ==> match json_string(t) {
        Some(x) => ids == seq![x],
        None => ids.len() == 0,
    }
    &&& !(t.len() > 0 && (t[0] == '[' || t[0] == '"')) ==> ids.len() == 0
}

/// The applied tweaks read from a detection output are the ones it parses
/// to.
pub proof fn lemma_applied_ids_are_parsed(out: Seq<char>)
    ensures
        reports_parsed_ids(out, applied_ids(out)),
{
}

/// The applied tweaks that the detection output text `out` reports.
pub fn applied_from_output(out: &str) -> (ids: Vec<String>)
    ensures
        string_views(ids@) == applied_ids(out@),
        reports_parsed_ids(out@, string_views(ids@)),
{
    let t = trimmed(out);
    let v = chars_of(t.as_str());
    let reading = if v.len() > 0 && v[0] == '[' {
        DetectionReading::List(parse_json_string_array(t.as_str()))
    } else if v.len() > 0 && v[0] == '"' {
        DetectionReading::Single(parse_json_string(t.as_str()))
    } else {
        DetectionReading::Nothing
    };
    ids_from_reading(reading)
}

/// The applied tweaks that the detection run `run` reports; a run that could
/// not start reports none. The exit status is not consulted.
pub fn applied_tweaks(run: &Result<CommandOutput, String>) -> (ids: Vec<String>)
    ensures
        string_views(ids@) == match *run {
            Ok(o) => applied_ids(stdout_text(o)),
            Err(_) => Seq::<Seq<char>>::empty(),
        },
        match *run {
            Ok(o) => reports_parsed_ids(stdout_text(o), string_views(ids@)),
            Err(_) => ids@.len() == 0,
        },
{
    match run {
        Ok(o) => applied_from_output(o.stdout_string().as_str()),
        Err(_) => {
            let v: Vec<String> = Vec::new();
            assert(string_views(v@) =~= Seq::<Seq<char>>::empty());
            v
        },
    }
}

/// The distinct words of the package manager's listing `out`, in order of
/// first occurrence; each word occurs once, and every word of the listing
/// occurs.
pub fn installed_from_output(out: &str) -> (names: Vec<String>)
    ensures
        string_views(names@) == dedup(words(out@)),
        string_views(names@).no_duplicates(),
        forall|w: Seq<char>| string_views(names@).contains(w) <==> words(out@).contains(w),
{
    let v = chars_of(out);
    let ws = split_words(v.as_slice());
    let names = distinct(ws);
    proof {
        lemma_dedup(words(out@));
    }
    names
}

/// The installed entries that the listing run `run` reports; a run that
/// could not start reports none. The exit status is not consulted.
pub fn installed_apps(run: &Result<CommandOutput, String>) -> (names: Vec<String>)
    ensures
        string_views(names@) == match *run {
            Ok(o) => dedup(words(stdout_text(o))),
            Err(_) => Seq::<Seq<char>>::empty(),
        },
{
    match run {
        Ok(o) => installed_from_output(o.stdout_string().as_str()),
        Err(_) => {
            let v: Vec<String> = Vec::new();
            assert(string_views(v@) =~= Seq::<Seq<char>>::empty());
            v
        },
    }
}

} // verus!
