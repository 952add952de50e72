//! The catalogue of system tweaks: their identifiers, the PowerShell scripts
//! that apply them and, where one exists, the script that reverts them.
use vstd::prelude::*;
use crate::text::{contains_seq, starts_with};
use crate::tweak_content::{
    apply_commands, lemma_apply_script_runs_its_commands, lemma_revert_script_runs_its_commands,
    revert_commands,
};

verus! {

/// A system tweak that the assistant can apply.
#[derive(Clone, Copy, Debug, PartialEq, Eq, Structural)]
pub enum Tweak {
    CleanTemp,
    Debloat,
    HighPerf,
    VisualEffects,
    NetworkTweak,
    DisableStartup,
    DarkMode,
    Telemetry,
    DefaultBrowserPrompt,
    TrimSSD,
    DisableHibernate,
    ResetNetwork,
    DisableCortana,
    DisableGameDVR,
    CloudflareDns,
    DisableIndexing,
    GodMode,
    FlushDNS,
    ScheduleCleanup,
}

/// Applies `Opt.CleanTemp`.
pub const APPLY_CLEAN_TEMP: &'static str = r#"
            $ErrorActionPreference = 'SilentlyContinue'
            Remove-Item -Path "$env:TEMP\*" -Recurse -Force
            Remove-Item -Path "C:\Windows\Temp\*" -Recurse -Force
            Clear-DnsClientCache
            Write-Output "Cleaned temp files, prefetch, and DNS cache."
            "#;

/// Applies `Opt.Debloat`.
pub const APPLY_DEBLOAT: &'static str = r#"
            $ErrorActionPreference = 'SilentlyContinue'
            $apps = @(
                "Microsoft.3DBuilder", "Microsoft.BingWeather", "Microsoft.GetHelp", 
                "Microsoft.Getstarted", "Microsoft.Messaging", "Microsoft.MicrosoftSolitaireCollection", 
                "Microsoft.MixedReality.Portal", "Microsoft.OneConnect", "Microsoft.People", 
                "Microsoft.Print3D", "Microsoft.SkypeApp", "Microsoft.Wallet", "Microsoft.XboxApp", 
                "Microsoft.XboxGameOverlay", "Microsoft.XboxGamingOverlay", "Microsoft.XboxIdentityProvider", 
                "Microsoft.YourPhone", "Microsoft.ZuneMusic", "Microsoft.ZuneVideo"
            )
            $count = 0
            foreach ($app in $apps) {
                $p = Get-AppxPackage -Name $app -AllUsers
                if ($p) {
                    $p | Remove-AppxPackage
                    $count++
                }
            }
            Write-Output "Successfully removed $count pre-installed bloatware apps."
            "#;

/// Applies `Opt.HighPerf`.
pub const APPLY_HIGH_PERF: &'static str = r#"
            $ErrorActionPreference = 'SilentlyContinue'
            powercfg /setactive 8c5e7fda-e8bf-4a94-9a85-a6e23a8c635c
            powercfg /duplicatescheme e9a42b02-d5df-448d-aa00-03f14749eb61 | Out-Null
            $plans = powercfg /list
            $ultimate = $plans | Select-String "Ultimate Performance"
            if ($ultimate) {
                $guid = [regex]::Match($ultimate.Line, '([a-f0-9]{8}-[a-f0-9]{4}-[a-f0-9]{4}-[a-f0-9]{4}-[a-f0-9]{12})').Value
                powercfg /setactive $guid
                Write-Output "Ultimate Performance plan activated."
            } else {
                Write-Output "High Performance plan activated."
            }
            "#;

/// Applies `Opt.VisualEffects`.
pub const APPLY_VISUAL_EFFECTS: &'static str = r#"
            $ErrorActionPreference = 'SilentlyContinue'
            Set-ItemProperty -Path "HKCU:\Software\Microsoft\Windows\CurrentVersion\Explorer\VisualEffects" -Name "VisualFXSetting" -Value 2
            Set-ItemProperty -Path "HKCU:\Control Panel\Desktop" -Name "UserPreferencesMask" -Value ([byte[]](144, 18, 3, 128, 16, 0, 0, 0))
            Set-ItemProperty -Path "HKCU:\Control Panel\Desktop" -Name "MenuShowDelay" -Value "0"
            Write-Output "Visual effects optimized for performance."
            "#;

/// Applies `Opt.NetworkTweak`.
pub const APPLY_NETWORK_TWEAK: &'static str = r#"
            $ErrorActionPreference = 'SilentlyContinue'
            netsh int tcp set global autotuninglevel=normal
            netsh int tcp set global chimney=enabled
            netsh int tcp set global dca=enabled
            netsh int tcp set global netdma=enabled
            netsh int tcp set global ecncapability=enabled
            Write-Output "TCP Auto-Tuning and network adapter settings optimized."
            "#;

/// Applies `Opt.DisableStartup`.
pub const APPLY_DISABLE_STARTUP: &'static str = r#"
            $ErrorActionPreference = 'SilentlyContinue'
            Remove-ItemProperty -Path "HKCU:\Software\Microsoft\Windows\CurrentVersion\Run" -Name "OneDrive"
            Remove-ItemProperty -Path "HKCU:\Software\Microsoft\Windows\CurrentVersion\Run" -Name "com.squirrel.Teams.Teams"
            Set-ItemProperty -Path "HKCU:\Software\Microsoft\Windows\CurrentVersion\Explorer\StartupApproved\Run" -Name "com.squirrel.Teams.Teams" -Value ([byte[]](3,0,0,0,0,0,0,0,0,0,0,0))
            Write-Output "Startup programs (OneDrive, Teams) disabled."
            "#;

/// Applies `Opt.DarkMode`.
pub const APPLY_DARK_MODE: &'static str = r#"
            $ErrorActionPreference = 'SilentlyContinue'
            Set-ItemProperty -Path "HKCU:\Software\Microsoft\Windows\CurrentVersion\Themes\Personalize" -Name "AppsUseLightTheme" -Value 0
            Set-ItemProperty -Name "SystemUsesLightTheme" -Path "HKCU:\Software\Microsoft\Windows\CurrentVersion\Themes\Personalize" -Value 0
            Write-Output "Dark Mode enabled system-wide."
            "#;

/// Applies `Opt.Telemetry`.
pub const APPLY_TELEMETRY: &'static str = r#"
            $ErrorActionPreference = 'SilentlyContinue'
            Stop-Service -Name "DiagTrack"
            Set-Service -Name "DiagTrack" -StartupType Disabled
            Set-ItemProperty -Path "HKLM:\SOFTWARE\Policies\Microsoft\Windows\DataCollection" -Name "AllowTelemetry" -Value 0
            Set-ItemProperty -Path "HKLM:\SOFTWARE\Microsoft\Windows\CurrentVersion\Policies\DataCollection" -Name "AllowTelemetry" -Value 0
            Write-Output "Telemetry services and Windows tracking disabled."
            "#;

/// Applies `Opt.DefaultBrowserPrompt`.
pub const APPLY_DEFAULT_BROWSER_PROMPT: &'static str = r#"
            $ErrorActionPreference = 'SilentlyContinue'
            New-Item -Path "HKCU:\Software\Policies\Microsoft" -Name "Edge" -Force | Out-Null
            Set-ItemProperty -Path "HKCU:\Software\Policies\Microsoft\Edge" -Name "DefaultBrowserSettingEnabled" -Value 0
            Set-ItemProperty -Path "HKCU:\Software\Policies\Microsoft\Edge" -Name "HideFirstRunExperience" -Value 1
            Write-Output "Edge default browser prompt and first-run experience disabled."
            "#;

/// Applies `Opt.TrimSSD`.
pub const APPLY_TRIM_SSD: &'static str = r#"
            $ErrorActionPreference = 'SilentlyContinue'
            Get-Volume | Where-Object {$_.DriveType -eq 'Fixed' -and $_.FileSystemLabel -ne 'System Reserved'} | Optimize-Volume -Defrag -Trim -Verbose
            Write-Output "TRIM optimization triggered on all volumes."
            "#;

/// Applies `Opt.DisableHibernate`.
pub const APPLY_DISABLE_HIBERNATE: &'static str = r#"
            $ErrorActionPreference = 'SilentlyContinue'
            powercfg.exe /hibernate off
            Write-Output "Hibernation disabled system-wide."
            "#;

/// Applies `Opt.ResetNetwork`.
pub const APPLY_RESET_NETWORK: &'static str = r#"
            $ErrorActionPreference = 'SilentlyContinue'
            ipconfig /flushdns
            netsh winsock reset
            netsh int ip reset
            Write-Output "DNS cache flushed and network stack reset."
            "#;

/// Applies `Opt.DisableCortana`.
pub const APPLY_DISABLE_CORTANA: &'static str = r#"
            $ErrorActionPreference = 'SilentlyContinue'
            New-Item -Path "HKLM:\SOFTWARE\Policies\Microsoft\Windows" -Name "Windows Search" -Force | Out-Null
            Set-ItemProperty -Path "HKLM:\SOFTWARE\Policies\Microsoft\Windows\Windows Search" -Name "AllowCortana" -Value 0
            Set-ItemProperty -Path "HKCU:\Software\Microsoft\Windows\CurrentVersion\Search" -Name "BingSearchEnabled" -Value 0
            Set-ItemProperty -Path "HKCU:\Software\Microsoft\Windows\CurrentVersion\Search" -Name "CortanaConsent" -Value 0
            Write-Output "Cortana and Bing web search in Start menu disabled."
            "#;

/// Applies `Opt.DisableGameDVR`.
pub const APPLY_DISABLE_GAME_DVR: &'static str = r#"
            $ErrorActionPreference = 'SilentlyContinue'
            Set-ItemProperty -Path "HKCU:\System\GameConfigStore" -Name "GameDVR_Enabled" -Value 0
            New-Item -Path "HKLM:\SOFTWARE\Policies\Microsoft\Windows" -Name "GameDVR" -Force | Out-Null
            Set-ItemProperty -Path "HKLM:\SOFTWARE\Policies\Microsoft\Windows\GameDVR" -Name "AllowGameDVR" -Value 0
            Write-Output "Xbox Game DVR and background recording disabled."
            "#;

/// Applies `Opt.CloudflareDns`.
pub const APPLY_CLOUDFLARE_DNS: &'static str = r#"
            $ErrorActionPreference = 'SilentlyContinue'
            $adapters = Get-NetAdapter | Where-Object {$_.Status -eq 'Up'}
            foreach ($adapter in $adapters) {
                Set-DnsClientServerAddress -InterfaceIndex $adapter.InterfaceIndex -ServerAddresses ("1.1.1.1", "1.0.0.1")
            }
            Write-Output "DNS servers updated to Cloudflare (1.1.1.1)."
            "#;

/// Applies `Opt.DisableIndexing`.
pub const APPLY_DISABLE_INDEXING: &'static str = r#"
            $ErrorActionPreference = 'SilentlyContinue'
            Stop-Service -Name "WSearch" -Force
            Set-Service -Name "WSearch" -StartupType Disabled
            Write-Output "Windows Search Indexing service disabled and stopped."
            "#;

/// Applies `Opt.GodMode`.
pub const APPLY_GOD_MODE: &'static str = r#"
            $ErrorActionPreference = 'SilentlyContinue'
            $DesktopPath = [System.IO.Path]::Combine([Environment]::GetFolderPath('Desktop'), 'GodMode.{ED7BA470-8E54-465E-825C-99712043E01C}')
            New-Item -ItemType Directory -Path $DesktopPath -Force | Out-Null
            Write-Output "God Mode folder successfully created on your Desktop."
            "#;

/// Applies `Opt.FlushDNS`.
pub const APPLY_FLUSH_DNS: &'static str = r#"
            $ErrorActionPreference = 'SilentlyContinue'
            $DesktopPath = [System.IO.Path]::Combine([Environment]::GetFolderPath('Desktop'), "Flush DNS.bat")
            "@echo off`r`nipconfig /flushdns`r`necho DNS Cache Flushed!`r`npause" | Out-File -FilePath $DesktopPath -Encoding ascii -Force
            Write-Output "Flush DNS batch shortcut created on your Desktop."
            "#;

/// Applies `Opt.ScheduleCleanup`.
pub const APPLY_SCHEDULE_CLEANUP: &'static str = r#"
            $ErrorActionPreference = 'SilentlyContinue'
            $Action = New-ScheduledTaskAction -Execute 'PowerShell.exe' -Argument '-NoProfile -WindowStyle Hidden -Command "Remove-Item -Path \"$env:TEMP\*\" -Recurse -Force -ErrorAction SilentlyContinue; Remove-Item -Path \"C:\Windows\Temp\*\" -Recurse -Force -ErrorAction SilentlyContinue; Clear-DnsClientCache -ErrorAction SilentlyContinue"'
            $Trigger = New-ScheduledTaskTrigger -Daily -At '3:00 AM'
            $Settings = New-ScheduledTaskSettingsSet -AllowStartIfOnBatteries -DontStopIfGoingOnBatteries -StartWhenAvailable
            Register-ScheduledTask -TaskName "WinForgeDailyCleanup" -Action $Action -Trigger $Trigger -Settings $Settings -Description "Daily background temp files cleanup and DNS cache flush created by WinForge." -Force | Out-Null
            Write-Output "Successfully scheduled daily cleanup task in Windows Task Scheduler."
            "#;

/// Reverts `Opt.Debloat`.
pub const REVERT_DEBLOAT: &'static str = r#"
            $ErrorActionPreference = 'SilentlyContinue'
            $apps = @(
                "Microsoft.3DBuilder", "Microsoft.BingWeather", "Microsoft.GetHelp", 
                "Microsoft.Getstarted", "Microsoft.Messaging", "Microsoft.MicrosoftSolitaireCollection", 
                "Microsoft.MixedReality.Portal", "Microsoft.OneConnect", "Microsoft.People", 
                "Microsoft.Print3D", "Microsoft.SkypeApp", "Microsoft.Wallet", "Microsoft.XboxApp", 
                "Microsoft.XboxGameOverlay", "Microsoft.XboxGamingOverlay", "Microsoft.XboxIdentityProvider", 
                "Microsoft.YourPhone", "Microsoft.ZuneMusic", "Microsoft.ZuneVideo"
            )
            foreach ($app in $apps) {
                $manifest = (Get-AppxPackage -AllUsers -Name $app).InstallLocation + "\AppXManifest.xml"
                if (Test-Path $manifest) {
                    Add-AppxPackage -DisableDevelopmentMode -Register $manifest
                }
            }
            Write-Output "Restored package manifests for debloated apps."
            "#;

/// Reverts `Opt.HighPerf`.
pub const REVERT_HIGH_PERF: &'static str = r#"
            $ErrorActionPreference = 'SilentlyContinue'
            powercfg /setactive 381b4222-f694-41f0-9685-ff5bb260df2e
            Write-Output "Balanced power plan activated."
            "#;

/// Reverts `Opt.VisualEffects`.
pub const REVERT_VISUAL_EFFECTS: &'static str = r#"
            $ErrorActionPreference = 'SilentlyContinue'
            Set-ItemProperty -Path "HKCU:\Software\Microsoft\Windows\CurrentVersion\Explorer\VisualEffects" -Name "VisualFXSetting" -Value 0
            Set-ItemProperty -Path "HKCU:\Control Panel\Desktop" -Name "UserPreferencesMask" -Value ([byte[]](158, 30, 7, 128, 18, 0, 0, 0))
            Set-ItemProperty -Path "HKCU:\Control Panel\Desktop" -Name "MenuShowDelay" -Value "400"
            Write-Output "Visual effects restored to defaults."
            "#;

/// Reverts `Opt.NetworkTweak`.
pub const REVERT_NETWORK_TWEAK: &'static str = r#"
            $ErrorActionPreference = 'SilentlyContinue'
            netsh int tcp set global autotuninglevel=normal
            netsh int tcp set global chimney=default
            netsh int tcp set global dca=disabled
            netsh int tcp set global netdma=disabled
            netsh int tcp set global ecncapability=disabled
            Write-Output "TCP Auto-Tuning and network settings restored to defaults."
            "#;

/// Reverts `Opt.DisableStartup`.
pub const REVERT_DISABLE_STARTUP: &'static str = r#"
            $ErrorActionPreference = 'SilentlyContinue'
            $localApp = $env:LOCALAPPDATA
            if (Test-Path "$localApp\Microsoft\OneDrive\OneDrive.exe") {
                Set-ItemProperty -Path "HKCU:\Software\Microsoft\Windows\CurrentVersion\Run" -Name "OneDrive" -Value "`"$localApp\Microsoft\OneDrive\OneDrive.exe`" /background"
            }
            Remove-ItemProperty -Path "HKCU:\Software\Microsoft\Windows\CurrentVersion\Explorer\StartupApproved\Run" -Name "com.squirrel.Teams.Teams"
            Write-Output "Startup programs re-enabled."
            "#;

/// Reverts `Opt.DarkMode`.
pub const REVERT_DARK_MODE: &'static str = r#"
            $ErrorActionPreference = 'SilentlyContinue'
            Set-ItemProperty -Path "HKCU:\Software\Microsoft\Windows\CurrentVersion\Themes\Personalize" -Name "AppsUseLightTheme" -Value 1
            Set-ItemProperty -Name "SystemUsesLightTheme" -Path "HKCU:\Software\Microsoft\Windows\CurrentVersion\Themes\Personalize" -Value 1
            Write-Output "Light Mode re-enabled."
            "#;

/// Reverts `Opt.Telemetry`.
pub const REVERT_TELEMETRY: &'static str = r#"
            $ErrorActionPreference = 'SilentlyContinue'
            Set-Service -Name "DiagTrack" -StartupType Automatic
            Start-Service -Name "DiagTrack"
            Remove-ItemProperty -Path "HKLM:\SOFTWARE\Policies\Microsoft\Windows\DataCollection" -Name "AllowTelemetry"
            Remove-ItemProperty -Path "HKLM:\SOFTWARE\Microsoft\Windows\CurrentVersion\Policies\DataCollection" -Name "AllowTelemetry"
            Write-Output "Telemetry services and Windows tracking re-enabled."
            "#;

/// Reverts `Opt.DefaultBrowserPrompt`.
pub const REVERT_DEFAULT_BROWSER_PROMPT: &'static str = r#"
            $ErrorActionPreference = 'SilentlyContinue'
            Remove-ItemProperty -Path "HKCU:\Software\Policies\Microsoft\Edge" -Name "DefaultBrowserSettingEnabled"
            Remove-ItemProperty -Path "HKCU:\Software\Policies\Microsoft\Edge" -Name "HideFirstRunExperience"
            Write-Output "Edge default browser prompts re-enabled."
            "#;

/// Reverts `Opt.DisableHibernate`.
pub const REVERT_DISABLE_HIBERNATE: &'static str = r#"
            $ErrorActionPreference = 'SilentlyContinue'
            powercfg.exe /hibernate on
            Write-Output "Hibernation re-enabled."
            "#;

/// Reverts `Opt.DisableCortana`.
pub const REVERT_DISABLE_CORTANA: &'static str = r#"
            $ErrorActionPreference = 'SilentlyContinue'
            Remove-ItemProperty -Path "HKLM:\SOFTWARE\Policies\Microsoft\Windows\Windows Search" -Name "AllowCortana"
            Remove-ItemProperty -Path "HKCU:\Software\Microsoft\Windows\CurrentVersion\Search" -Name "BingSearchEnabled"
            Remove-ItemProperty -Path "HKCU:\Software\Microsoft\Windows\CurrentVersion\Search" -Name "CortanaConsent"
            Write-Output "Cortana and Bing web search re-enabled."
            "#;

/// Reverts `Opt.DisableGameDVR`.
pub const REVERT_DISABLE_GAME_DVR: &'static str = r#"
            $ErrorActionPreference = 'SilentlyContinue'
            Set-ItemProperty -Path "HKCU:\System\GameConfigStore" -Name "GameDVR_Enabled" -Value 1
            Remove-ItemProperty -Path "HKLM:\SOFTWARE\Policies\Microsoft\Windows\GameDVR" -Name "AllowGameDVR"
            Write-Output "Xbox Game DVR re-enabled."
            "#;

/// Reverts `Opt.CloudflareDns`.
pub const REVERT_CLOUDFLARE_DNS: &'static str = r#"
            $ErrorActionPreference = 'SilentlyContinue'
            $adapters = Get-NetAdapter | Where-Object {$_.Status -eq 'Up'}
            foreach ($adapter in $adapters) {
                Set-DnsClientServerAddress -InterfaceIndex $adapter.InterfaceIndex -ResetServerAddresses
            }
            Write-Output "DNS settings reset to default."
            "#;

/// Reverts `Opt.DisableIndexing`.
pub const REVERT_DISABLE_INDEXING: &'static str = r#"
            $ErrorActionPreference = 'SilentlyContinue'
            Set-Service -Name "WSearch" -StartupType Automatic
            Start-Service -Name "WSearch"
            Write-Output "Windows Search Indexing service re-enabled."
            "#;

/// Reverts `Opt.GodMode`.
pub const REVERT_GOD_MODE: &'static str = r#"
            $ErrorActionPreference = 'SilentlyContinue'
            $DesktopPath = [System.IO.Path]::Combine([Environment]::GetFolderPath('Desktop'), 'GodMode.{ED7BA470-8E54-465E-825C-99712043E01C}')
            if (Test-Path $DesktopPath) {
                Remove-Item -Path $DesktopPath -Recurse -Force
                Write-Output "God Mode folder removed."
            } else {
                Write-Output "God Mode folder not found."
            }
            "#;

/// Reverts `Opt.FlushDNS`.
pub const REVERT_FLUSH_DNS: &'static str = r#"
            $ErrorActionPreference = 'SilentlyContinue'
            $DesktopPath = [System.IO.Path]::Combine([Environment]::GetFolderPath('Desktop'), "Flush DNS.bat")
            if (Test-Path $DesktopPath) {
                Remove-Item -Path $DesktopPath -Force
                Write-Output "Flush DNS shortcut removed."
            } else {
                Write-Output "Flush DNS shortcut not found."
            }
            "#;

/// Reverts `Opt.ScheduleCleanup`.
pub const REVERT_SCHEDULE_CLEANUP: &'static str = r#"
            $ErrorActionPreference = 'SilentlyContinue'
            Unregister-ScheduledTask -TaskName "WinForgeDailyCleanup" -Confirm:$false
            Write-Output "Scheduled cleanup task removed."
            "#;

/// The identifier by which the user interface names a tweak.
pub open spec fn tweak_id(t: Tweak) -> Seq<char> {
    match t {
        Tweak::CleanTemp => "Opt.CleanTemp"@,
        Tweak::Debloat => "Opt.Debloat"@,
        Tweak::HighPerf => "Opt.HighPerf"@,
        Tweak::VisualEffects => "Opt.VisualEffects"@,
        Tweak::NetworkTweak => "Opt.NetworkTweak"@,
        Tweak::DisableStartup => "Opt.DisableStartup"@,
        Tweak::DarkMode => "Opt.DarkMode"@,
        Tweak::Telemetry => "Opt.Telemetry"@,
        Tweak::DefaultBrowserPrompt => "Opt.DefaultBrowserPrompt"@,
        Tweak::TrimSSD => "Opt.TrimSSD"@,
        Tweak::DisableHibernate => "Opt.DisableHibernate"@,
        Tweak::ResetNetwork => "Opt.ResetNetwork"@,
        Tweak::DisableCortana => "Opt.DisableCortana"@,
        Tweak::DisableGameDVR => "Opt.DisableGameDVR"@,
        Tweak::CloudflareDns => "Opt.CloudflareDns"@,
        Tweak::DisableIndexing => "Opt.DisableIndexing"@,
        Tweak::GodMode => "Opt.GodMode"@,
        Tweak::FlushDNS => "Opt.FlushDNS"@,
        Tweak::ScheduleCleanup => "Opt.ScheduleCleanup"@,
    }
}

/// The script that applies a tweak.
pub open spec fn apply_script_text(t: Tweak) -> Seq<char> {
    match t {
        Tweak::CleanTemp => APPLY_CLEAN_TEMP@,
        Tweak::Debloat => APPLY_DEBLOAT@,
        Tweak::HighPerf => APPLY_HIGH_PERF@,
        Tweak::VisualEffects => APPLY_VISUAL_EFFECTS@,
        Tweak::NetworkTweak => APPLY_NETWORK_TWEAK@,
        Tweak::DisableStartup => APPLY_DISABLE_STARTUP@,
        Tweak::DarkMode => APPLY_DARK_MODE@,
        Tweak::Telemetry => APPLY_TELEMETRY@,
        Tweak::DefaultBrowserPrompt => APPLY_DEFAULT_BROWSER_PROMPT@,
        Tweak::TrimSSD => APPLY_TRIM_SSD@,
        Tweak::DisableHibernate => APPLY_DISABLE_HIBERNATE@,
        Tweak::ResetNetwork => APPLY_RESET_NETWORK@,
        Tweak::DisableCortana => APPLY_DISABLE_CORTANA@,
        Tweak::DisableGameDVR => APPLY_DISABLE_GAME_DVR@,
        Tweak::CloudflareDns => APPLY_CLOUDFLARE_DNS@,
        Tweak::DisableIndexing => APPLY_DISABLE_INDEXING@,
        Tweak::GodMode => APPLY_GOD_MODE@,
        Tweak::FlushDNS => APPLY_FLUSH_DNS@,
        Tweak::ScheduleCleanup => APPLY_SCHEDULE_CLEANUP@,
    }
}

/// The script that reverts a tweak, for the tweaks that can be reverted.
pub open spec fn revert_script_text(t: Tweak) -> Option<Seq<char>> {
    match t {
        Tweak::CleanTemp => None,
        Tweak::Debloat => Some(REVERT_DEBLOAT@),
        Tweak::HighPerf => Some(REVERT_HIGH_PERF@),
        Tweak::VisualEffects => Some(REVERT_VISUAL_EFFECTS@),
        Tweak::NetworkTweak => Some(REVERT_NETWORK_TWEAK@),
        Tweak::DisableStartup => Some(REVERT_DISABLE_STARTUP@),
        Tweak::DarkMode => Some(REVERT_DARK_MODE@),
        Tweak::Telemetry => Some(REVERT_TELEMETRY@),
        Tweak::DefaultBrowserPrompt => Some(REVERT_DEFAULT_BROWSER_PROMPT@),
        Tweak::TrimSSD => None,
        Tweak::DisableHibernate => Some(REVERT_DISABLE_HIBERNATE@),
        Tweak::ResetNetwork => None,
        Tweak::DisableCortana => Some(REVERT_DISABLE_CORTANA@),
        Tweak::DisableGameDVR => Some(REVERT_DISABLE_GAME_DVR@),
        Tweak::CloudflareDns => Some(REVERT_CLOUDFLARE_DNS@),
        Tweak::DisableIndexing => Some(REVERT_DISABLE_INDEXING@),
        Tweak::GodMode => Some(REVERT_GOD_MODE@),
        Tweak::FlushDNS => Some(REVERT_FLUSH_DNS@),
        Tweak::ScheduleCleanup => Some(REVERT_SCHEDULE_CLEANUP@),
    }
}

/// Every tweak, in catalogue order.
pub open spec fn catalogue() -> Seq<Tweak> {
    seq![
        Tweak::CleanTemp,
        Tweak::Debloat,
        Tweak::HighPerf,
        Tweak::VisualEffects,
        Tweak::NetworkTweak,
        Tweak::DisableStartup,
        Tweak::DarkMode,
        Tweak::Telemetry,
        Tweak::DefaultBrowserPrompt,
        Tweak::TrimSSD,
        Tweak::DisableHibernate,
        Tweak::ResetNetwork,
        Tweak::DisableCortana,
        Tweak::DisableGameDVR,
        Tweak::CloudflareDns,
        Tweak::DisableIndexing,
        Tweak::GodMode,
        Tweak::FlushDNS,
        Tweak::ScheduleCleanup,
    ]
}

/// Every tweak, in catalogue order.
pub fn all_tweaks() -> (v: Vec<Tweak>)
    ensures
        v@ == catalogue(),
{
    let mut v: Vec<Tweak> = Vec::new();
    v.push(Tweak::CleanTemp);
    v.push(Tweak::Debloat);
    v.push(Tweak::HighPerf);
    v.push(Tweak::VisualEffects);
    v.push(Tweak::NetworkTweak);
    v.push(Tweak::DisableStartup);
    v.push(Tweak::DarkMode);
    v.push(Tweak::Telemetry);
    v.push(Tweak::DefaultBrowserPrompt);
    v.push(Tweak::TrimSSD);
    v.push(Tweak::DisableHibernate);
    v.push(Tweak::ResetNetwork);
    v.push(Tweak::DisableCortana);
    v.push(Tweak::DisableGameDVR);
    v.push(Tweak::CloudflareDns);
    v.push(Tweak::DisableIndexing);
    v.push(Tweak::GodMode);
    v.push(Tweak::FlushDNS);
    v.push(Tweak::ScheduleCleanup);
    assert(v@ =~= catalogue());
    v
}

/// The catalogue lists every tweak.
pub proof fn lemma_catalogue_complete(t: Tweak)
    ensures
        catalogue().contains(t),
{
    match t {
        Tweak::CleanTemp => assert(catalogue()[0] == t),
        Tweak::Debloat => assert(catalogue()[1] == t),
        Tweak::HighPerf => assert(catalogue()[2] == t),
        Tweak::VisualEffects => assert(catalogue()[3] == t),
        Tweak::NetworkTweak => assert(catalogue()[4] == t),
        Tweak::DisableStartup => assert(catalogue()[5] == t),
        Tweak::DarkMode => assert(catalogue()[6] == t),
        Tweak::Telemetry => assert(catalogue()[7] == t),
        Tweak::DefaultBrowserPrompt => assert(catalogue()[8] == t),
        Tweak::TrimSSD => assert(catalogue()[9] == t),
        Tweak::DisableHibernate => assert(catalogue()[10] == t),
        Tweak::ResetNetwork => assert(catalogue()[11] == t),
        Tweak::DisableCortana => assert(catalogue()[12] == t),
        Tweak::DisableGameDVR => assert(catalogue()[13] == t),
        Tweak::CloudflareDns => assert(catalogue()[14] == t),
        Tweak::DisableIndexing => assert(catalogue()[15] == t),
        Tweak::GodMode => assert(catalogue()[16] == t),
        Tweak::FlushDNS => assert(catalogue()[17] == t),
        Tweak::ScheduleCleanup => assert(catalogue()[18] == t),
    }
}

/// The length of a tweak identifier and its next-to-last character, which
/// together tell the identifiers apart.
spec fn id_signature(t: Tweak) -> (nat, char) {
    match t {
        Tweak::CleanTemp => (13, 'm'),
        Tweak::Debloat => (11, 'a'),
        Tweak::HighPerf => (12, 'r'),
        Tweak::VisualEffects => (17, 't'),
        Tweak::NetworkTweak => (16, 'a'),
        Tweak::DisableStartup => (18, 'u'),
        Tweak::DarkMode => (12, 'd'),
        Tweak::Telemetry => (13, 'r'),
        Tweak::DefaultBrowserPrompt => (24, 'p'),
        Tweak::TrimSSD => (11, 'S'),
        Tweak::DisableHibernate => (20, 't'),
        Tweak::ResetNetwork => (16, 'r'),
        Tweak::DisableCortana => (18, 'n'),
        Tweak::DisableGameDVR => (18, 'V'),
        Tweak::CloudflareDns => (17, 'n'),
        Tweak::DisableIndexing => (19, 'n'),
        Tweak::GodMode => (11, 'd'),
        Tweak::FlushDNS => (12, 'N'),
        Tweak::ScheduleCleanup => (19, 'u'),
    }
}

proof fn lemma_id_signature(t: Tweak)
    ensures
        tweak_id(t).len() == id_signature(t).0,
        tweak_id(t)[id_signature(t).0 - 2] == id_signature(t).1,
{
    match t {
        Tweak::CleanTemp => reveal_strlit("Opt.CleanTemp"),
        Tweak::Debloat => reveal_strlit("Opt.Debloat"),
        Tweak::HighPerf => reveal_strlit("Opt.HighPerf"),
        Tweak::VisualEffects => reveal_strlit("Opt.VisualEffects"),
        Tweak::NetworkTweak => reveal_strlit("Opt.NetworkTweak"),
        Tweak::DisableStartup => reveal_strlit("Opt.DisableStartup"),
        Tweak::DarkMode => reveal_strlit("Opt.DarkMode"),
        Tweak::Telemetry => reveal_strlit("Opt.Telemetry"),
        Tweak::DefaultBrowserPrompt => reveal_strlit("Opt.DefaultBrowserPrompt"),
        Tweak::TrimSSD => reveal_strlit("Opt.TrimSSD"),
        Tweak::DisableHibernate => reveal_strlit("Opt.DisableHibernate"),
        Tweak::ResetNetwork => reveal_strlit("Opt.ResetNetwork"),
        Tweak::DisableCortana => reveal_strlit("Opt.DisableCortana"),
        Tweak::DisableGameDVR => reveal_strlit("Opt.DisableGameDVR"),
        Tweak::CloudflareDns => reveal_strlit("Opt.CloudflareDns"),
        Tweak::DisableIndexing => reveal_strlit("Opt.DisableIndexing"),
        Tweak::GodMode => reveal_strlit("Opt.GodMode"),
        Tweak::FlushDNS => reveal_strlit("Opt.FlushDNS"),
        Tweak::ScheduleCleanup => reveal_strlit("Opt.ScheduleCleanup"),
    }
}

/// Different tweaks have different identifiers.
pub proof fn lemma_tweak_ids_distinct(a: Tweak, b: Tweak)
    requires
        tweak_id(a) == tweak_id(b),
    ensures
        a == b,
{
    lemma_id_signature(a);
    lemma_id_signature(b);
}

/// Every tweak identifier starts with `Opt.`, the prefix by which a request
/// is routed to the tweak runner rather than the package manager.
pub proof fn lemma_tweak_ids_are_optimizations(t: Tweak)
    ensures
        starts_with(tweak_id(t), "Opt."@),
{
    reveal_strlit("Opt.");
    reveal_strlit("Opt.CleanTemp");
    reveal_strlit("Opt.Debloat");
    reveal_strlit("Opt.HighPerf");
    reveal_strlit("Opt.VisualEffects");
    reveal_strlit("Opt.NetworkTweak");
    reveal_strlit("Opt.DisableStartup");
    reveal_strlit("Opt.DarkMode");
    reveal_strlit("Opt.Telemetry");
    reveal_strlit("Opt.DefaultBrowserPrompt");
    reveal_strlit("Opt.TrimSSD");
    reveal_strlit("Opt.DisableHibernate");
    reveal_strlit("Opt.ResetNetwork");
    reveal_strlit("Opt.DisableCortana");
    reveal_strlit("Opt.DisableGameDVR");
    reveal_strlit("Opt.CloudflareDns");
    reveal_strlit("Opt.DisableIndexing");
    reveal_strlit("Opt.GodMode");
    reveal_strlit("Opt.FlushDNS");
    reveal_strlit("Opt.ScheduleCleanup");
    assert(tweak_id(t).subrange(0, 4) =~= "Opt."@);
}

/// Every tweak can be reverted except cleaning temporary files, trimming SSDs
/// and resetting the network stack.
pub proof fn lemma_revertible(t: Tweak)
    ensures
        revert_script_text(t) is Some <==> !(t == Tweak::CleanTemp || t == Tweak::TrimSSD || t
            == Tweak::ResetNetwork),
{
}

/// The tweak whose identifier is `id`, if there is one.
pub open spec fn tweak_named(id: Seq<char>) -> Option<Tweak> {
    if exists|t: Tweak| tweak_id(t) == id {
        Some(choose|t: Tweak| tweak_id(t) == id)
    } else {
        None
    }
}

/// Looking a tweak up by its own identifier finds that tweak.
pub proof fn lemma_tweak_named_id(t: Tweak)
    ensures
        tweak_named(tweak_id(t)) == Some(t),
{
    let u = choose|u: Tweak| tweak_id(u) == tweak_id(t);
    lemma_tweak_ids_distinct(t, u);
}

impl Tweak {
    /// The tweak named by `id`, if any.
    pub fn from_id(id: &str) -> (r: Option<Tweak>)
        ensures
            r == tweak_named(id@),
    {
        let all = all_tweaks();
        let key = id.to_owned();
        let mut k: usize = 0;
        while k < all.len()
            invariant
                k <= all@.len(),
                all@ == catalogue(),
                key@ == id@,
                forall|j: int| 0 <= j < k ==> tweak_id(#[trigger] all@[j]) != id@,
            decreases all@.len() - k,
        {
            let t = all[k];
            if t.id().to_owned() == key {
                proof {
                    let u = choose|u: Tweak| tweak_id(u) == id@;
                    lemma_tweak_ids_distinct(t, u);
                }
                return Some(t);
            }
            k = k + 1;
        }
        proof {
            assert forall|t: Tweak| tweak_id(t) != id@ by {
                lemma_catalogue_complete(t);
                let j = choose|j: int| 0 <= j < catalogue().len() && catalogue()[j] == t;
                assert(tweak_id(all@[j]) != id@);
            }
        }
        None
    }

    /// The identifier of this tweak.
    pub fn id(&self) -> (s: &'static str)
        ensures
            s@ == tweak_id(*self),
    {
        match self {
            Tweak::CleanTemp => "Opt.CleanTemp",
            Tweak::Debloat => "Opt.Debloat",
            Tweak::HighPerf => "Opt.HighPerf",
            Tweak::VisualEffects => "Opt.VisualEffects",
            Tweak::NetworkTweak => "Opt.NetworkTweak",
            Tweak::DisableStartup => "Opt.DisableStartup",
            Tweak::DarkMode => "Opt.DarkMode",
            Tweak::Telemetry => "Opt.Telemetry",
            Tweak::DefaultBrowserPrompt => "Opt.DefaultBrowserPrompt",
            Tweak::TrimSSD => "Opt.TrimSSD",
            Tweak::DisableHibernate => "Opt.DisableHibernate",
            Tweak::ResetNetwork => "Opt.ResetNetwork",
            Tweak::DisableCortana => "Opt.DisableCortana",
            Tweak::DisableGameDVR => "Opt.DisableGameDVR",
            Tweak::CloudflareDns => "Opt.CloudflareDns",
            Tweak::DisableIndexing => "Opt.DisableIndexing",
            Tweak::GodMode => "Opt.GodMode",
            Tweak::FlushDNS => "Opt.FlushDNS",
            Tweak::ScheduleCleanup => "Opt.ScheduleCleanup",
        }
    }

    /// The script that applies this tweak.
    pub fn apply_script(&self) -> (s: &'static str)
        ensures
            s@ == apply_script_text(*self),
            forall|j: int|
                0 <= j < apply_commands(*self).len() ==> contains_seq(
                    s@,
                    #[trigger] apply_commands(*self)[j],
                ),
    {
        proof {
            lemma_apply_script_runs_its_commands(*self);
        }
        match self {
            Tweak::CleanTemp => APPLY_CLEAN_TEMP,
            Tweak::Debloat => APPLY_DEBLOAT,
            Tweak::HighPerf => APPLY_HIGH_PERF,
            Tweak::VisualEffects => APPLY_VISUAL_EFFECTS,
            Tweak::NetworkTweak => APPLY_NETWORK_TWEAK,
            Tweak::DisableStartup => APPLY_DISABLE_STARTUP,
            Tweak::DarkMode => APPLY_DARK_MODE,
            Tweak::Telemetry => APPLY_TELEMETRY,
            Tweak::DefaultBrowserPrompt => APPLY_DEFAULT_BROWSER_PROMPT,
            Tweak::TrimSSD => APPLY_TRIM_SSD,
            Tweak::DisableHibernate => APPLY_DISABLE_HIBERNATE,
            Tweak::ResetNetwork => APPLY_RESET_NETWORK,
            Tweak::DisableCortana => APPLY_DISABLE_CORTANA,
            Tweak::DisableGameDVR => APPLY_DISABLE_GAME_DVR,
            Tweak::CloudflareDns => APPLY_CLOUDFLARE_DNS,
            Tweak::DisableIndexing => APPLY_DISABLE_INDEXING,
            Tweak::GodMode => APPLY_GOD_MODE,
            Tweak::FlushDNS => APPLY_FLUSH_DNS,
            Tweak::ScheduleCleanup => APPLY_SCHEDULE_CLEANUP,
        }
    }

    /// The script that reverts this tweak, if it can be reverted.
    pub fn revert_script(&self) -> (s: Option<&'static str>)
        ensures
            match s {
                Some(x) => revert_script_text(*self) == Some(x@),
                None => revert_script_text(*self) is None,
            },
            s is Some <==> revert_commands(*self).len() > 0,
            s matches Some(x) ==> forall|j: int|
                0 <= j < revert_commands(*self).len() ==> contains_seq(
                    x@,
                    #[trigger] revert_commands(*self)[j],
                ),
    {
        proof {
            lemma_revert_script_runs_its_commands(*self);
        }
        match self {
            Tweak::CleanTemp => None,
            Tweak::Debloat => Some(REVERT_DEBLOAT),
            Tweak::HighPerf => Some(REVERT_HIGH_PERF),
            Tweak::VisualEffects => Some(REVERT_VISUAL_EFFECTS),
            Tweak::NetworkTweak => Some(REVERT_NETWORK_TWEAK),
            Tweak::DisableStartup => Some(REVERT_DISABLE_STARTUP),
            Tweak::DarkMode => Some(REVERT_DARK_MODE),
            Tweak::Telemetry => Some(REVERT_TELEMETRY),
            Tweak::DefaultBrowserPrompt => Some(REVERT_DEFAULT_BROWSER_PROMPT),
            Tweak::TrimSSD => None,
            Tweak::DisableHibernate => Some(REVERT_DISABLE_HIBERNATE),
            Tweak::ResetNetwork => None,
            Tweak::DisableCortana => Some(REVERT_DISABLE_CORTANA),
            Tweak::DisableGameDVR => Some(REVERT_DISABLE_GAME_DVR),
            Tweak::CloudflareDns => Some(REVERT_CLOUDFLARE_DNS),
            Tweak::DisableIndexing => Some(REVERT_DISABLE_INDEXING),
            Tweak::GodMode => Some(REVERT_GOD_MODE),
            Tweak::FlushDNS => Some(REVERT_FLUSH_DNS),
            Tweak::ScheduleCleanup => Some(REVERT_SCHEDULE_CLEANUP),
        }
    }
}

} // verus!
