//! What each tweak's scripts do, line by line: the commands that the
//! script that applies a tweak runs, and those that the script that reverts
//! it runs.
use vstd::prelude::*;
use crate::text::{contains_seq, occurs_at};
use crate::tweaks::{Tweak, apply_script_text, revert_script_text, APPLY_CLEAN_TEMP, APPLY_CLOUDFLARE_DNS, APPLY_DARK_MODE, APPLY_DEBLOAT, APPLY_DEFAULT_BROWSER_PROMPT, APPLY_DISABLE_CORTANA, APPLY_DISABLE_GAME_DVR, APPLY_DISABLE_HIBERNATE, APPLY_DISABLE_INDEXING, APPLY_DISABLE_STARTUP, APPLY_FLUSH_DNS, APPLY_GOD_MODE, APPLY_HIGH_PERF, APPLY_NETWORK_TWEAK, APPLY_RESET_NETWORK, APPLY_SCHEDULE_CLEANUP, APPLY_TELEMETRY, APPLY_TRIM_SSD, APPLY_VISUAL_EFFECTS, REVERT_CLOUDFLARE_DNS, REVERT_DARK_MODE, REVERT_DEBLOAT, REVERT_DEFAULT_BROWSER_PROMPT, REVERT_DISABLE_CORTANA, REVERT_DISABLE_GAME_DVR, REVERT_DISABLE_HIBERNATE, REVERT_DISABLE_INDEXING, REVERT_DISABLE_STARTUP, REVERT_FLUSH_DNS, REVERT_GOD_MODE, REVERT_HIGH_PERF, REVERT_NETWORK_TWEAK, REVERT_SCHEDULE_CLEANUP, REVERT_TELEMETRY, REVERT_VISUAL_EFFECTS};

verus! {

/// The commands that the script applying a tweak runs, each on a line of
/// its own, and the confirmation that it prints.
pub open spec fn apply_commands(t: Tweak) -> Seq<Seq<char>> {
    match t {
        Tweak::CleanTemp => seq![
            r#"Remove-Item -Path "$env:TEMP\*" -Recurse -Force"#@,
            r#"Remove-Item -Path "C:\Windows\Temp\*" -Recurse -Force"#@,
            r#"Clear-DnsClientCache"#@,
            r#"Write-Output "Cleaned temp files, prefetch, and DNS cache.""#@,
        ],
        Tweak::Debloat => seq![
            r#"$apps = @("#@,
            r#""Microsoft.3DBuilder", "Microsoft.BingWeather", "Microsoft.GetHelp","#@,
            r#""Microsoft.Getstarted", "Microsoft.Messaging", "Microsoft.MicrosoftSolitaireCollection","#@,
            r#""Microsoft.MixedReality.Portal", "Microsoft.OneConnect", "Microsoft.People","#@,
            r#""Microsoft.Print3D", "Microsoft.SkypeApp", "Microsoft.Wallet", "Microsoft.XboxApp","#@,
            r#""Microsoft.XboxGameOverlay", "Microsoft.XboxGamingOverlay", "Microsoft.XboxIdentityProvider","#@,
            r#""Microsoft.YourPhone", "Microsoft.ZuneMusic", "Microsoft.ZuneVideo""#@,
            r#"$count = 0"#@,
            r#"foreach ($app in $apps) {"#@,
            r#"$p = Get-AppxPackage -Name $app -AllUsers"#@,
            r#"if ($p) {"#@,
            r#"$p | Remove-AppxPackage"#@,
            r#"$count++"#@,
            r#"Write-Output "Successfully removed $count pre-installed bloatware apps.""#@,
        ],
        Tweak::HighPerf => seq![
            r#"powercfg /setactive 8c5e7fda-e8bf-4a94-9a85-a6e23a8c635c"#@,
            r#"powercfg /duplicatescheme e9a42b02-d5df-448d-aa00-03f14749eb61 | Out-Null"#@,
            r#"$plans = powercfg /list"#@,
            r#"$ultimate = $plans | Select-String "Ultimate Performance""#@,
            r#"if ($ultimate) {"#@,
            r#"$guid = [regex]::Match($ultimate.Line, '([a-f0-9]{8}-[a-f0-9]{4}-[a-f0-9]{4}-[a-f0-9]{4}-[a-f0-9]{12})').Value"#@,
            r#"powercfg /setactive $guid"#@,
            r#"Write-Output "Ultimate Performance plan activated.""#@,
            r#"} else {"#@,
            r#"Write-Output "High Performance plan activated.""#@,
        ],
        Tweak::VisualEffects => seq![
            r#"Set-ItemProperty -Path "HKCU:\Software\Microsoft\Windows\CurrentVersion\Explorer\VisualEffects" -Name "VisualFXSetting" -Value 2"#@,
            r#"Set-ItemProperty -Path "HKCU:\Control Panel\Desktop" -Name "UserPreferencesMask" -Value ([byte[]](144, 18, 3, 128, 16, 0, 0, 0))"#@,
            r#"Set-ItemProperty -Path "HKCU:\Control Panel\Desktop" -Name "MenuShowDelay" -Value "0""#@,
            r#"Write-Output "Visual effects optimized for performance.""#@,
        ],
        Tweak::NetworkTweak => seq![
            r#"netsh int tcp set global autotuninglevel=normal"#@,
            r#"netsh int tcp set global chimney=enabled"#@,
            r#"netsh int tcp set global dca=enabled"#@,
            r#"netsh int tcp set global netdma=enabled"#@,
            r#"netsh int tcp set global ecncapability=enabled"#@,
            r#"Write-Output "TCP Auto-Tuning and network adapter settings optimized.""#@,
        ],
        Tweak::DisableStartup => seq![
            r#"Remove-ItemProperty -Path "HKCU:\Software\Microsoft\Windows\CurrentVersion\Run" -Name "OneDrive""#@,
            r#"Remove-ItemProperty -Path "HKCU:\Software\Microsoft\Windows\CurrentVersion\Run" -Name "com.squirrel.Teams.Teams""#@,
            r#"Set-ItemProperty -Path "HKCU:\Software\Microsoft\Windows\CurrentVersion\Explorer\StartupApproved\Run" -Name "com.squirrel.Teams.Teams" -Value ([byte[]](3,0,0,0,0,0,0,0,0,0,0,0))"#@,
            r#"Write-Output "Startup programs (OneDrive, Teams) disabled.""#@,
        ],
        Tweak::DarkMode => seq![
            r#"Set-ItemProperty -Path "HKCU:\Software\Microsoft\Windows\CurrentVersion\Themes\Personalize" -Name "AppsUseLightTheme" -Value 0"#@,
            r#"Set-ItemProperty -Name "SystemUsesLightTheme" -Path "HKCU:\Software\Microsoft\Windows\CurrentVersion\Themes\Personalize" -Value 0"#@,
            r#"Write-Output "Dark Mode enabled system-wide.""#@,
        ],
        Tweak::Telemetry => seq![
            r#"Stop-Service -Name "DiagTrack""#@,
            r#"Set-Service -Name "DiagTrack" -StartupType Disabled"#@,
            r#"Set-ItemProperty -Path "HKLM:\SOFTWARE\Policies\Microsoft\Windows\DataCollection" -Name "AllowTelemetry" -Value 0"#@,
            r#"Set-ItemProperty -Path "HKLM:\SOFTWARE\Microsoft\Windows\CurrentVersion\Policies\DataCollection" -Name "AllowTelemetry" -Value 0"#@,
            r#"Write-Output "Telemetry services and Windows tracking disabled.""#@,
        ],
        Tweak::DefaultBrowserPrompt => seq![
            r#"New-Item -Path "HKCU:\Software\Policies\Microsoft" -Name "Edge" -Force | Out-Null"#@,
            r#"Set-ItemProperty -Path "HKCU:\Software\Policies\Microsoft\Edge" -Name "DefaultBrowserSettingEnabled" -Value 0"#@,
            r#"Set-ItemProperty -Path "HKCU:\Software\Policies\Microsoft\Edge" -Name "HideFirstRunExperience" -Value 1"#@,
            r#"Write-Output "Edge default browser prompt and first-run experience disabled.""#@,
        ],
        Tweak::TrimSSD => seq![
            r#"Get-Volume | Where-Object {$_.DriveType -eq 'Fixed' -and $_.FileSystemLabel -ne 'System Reserved'} | Optimize-Volume -Defrag -Trim -Verbose"#@,
            r#"Write-Output "TRIM optimization triggered on all volumes.""#@,
        ],
        Tweak::DisableHibernate => seq![
            r#"powercfg.exe /hibernate off"#@,
            r#"Write-Output "Hibernation disabled system-wide.""#@,
        ],
        Tweak::ResetNetwork => seq![
            r#"ipconfig /flushdns"#@,
            r#"netsh winsock reset"#@,
            r#"netsh int ip reset"#@,
            r#"Write-Output "DNS cache flushed and network stack reset.""#@,
        ],
        Tweak::DisableCortana => seq![
            r#"New-Item -Path "HKLM:\SOFTWARE\Policies\Microsoft\Windows" -Name "Windows Search" -Force | Out-Null"#@,
            r#"Set-ItemProperty -Path "HKLM:\SOFTWARE\Policies\Microsoft\Windows\Windows Search" -Name "AllowCortana" -Value 0"#@,
            r#"Set-ItemProperty -Path "HKCU:\Software\Microsoft\Windows\CurrentVersion\Search" -Name "BingSearchEnabled" -Value 0"#@,
            r#"Set-ItemProperty -Path "HKCU:\Software\Microsoft\Windows\CurrentVersion\Search" -Name "CortanaConsent" -Value 0"#@,
            r#"Write-Output "Cortana and Bing web search in Start menu disabled.""#@,
        ],
        Tweak::DisableGameDVR => seq![
            r#"Set-ItemProperty -Path "HKCU:\System\GameConfigStore" -Name "GameDVR_Enabled" -Value 0"#@,
            r#"New-Item -Path "HKLM:\SOFTWARE\Policies\Microsoft\Windows" -Name "GameDVR" -Force | Out-Null"#@,
            r#"Set-ItemProperty -Path "HKLM:\SOFTWARE\Policies\Microsoft\Windows\GameDVR" -Name "AllowGameDVR" -Value 0"#@,
            r#"Write-Output "Xbox Game DVR and background recording disabled.""#@,
        ],
        Tweak::CloudflareDns => seq![
            r#"$adapters = Get-NetAdapter | Where-Object {$_.Status -eq 'Up'}"#@,
            r#"foreach ($adapter in $adapters) {"#@,
            r#"Set-DnsClientServerAddress -InterfaceIndex $adapter.InterfaceIndex -ServerAddresses ("1.1.1.1", "1.0.0.1")"#@,
            r#"Write-Output "DNS servers updated to Cloudflare (1.1.1.1).""#@,
        ],
        Tweak::DisableIndexing => seq![
            r#"Stop-Service -Name "WSearch" -Force"#@,
            r#"Set-Service -Name "WSearch" -StartupType Disabled"#@,
            r#"Write-Output "Windows Search Indexing service disabled and stopped.""#@,
        ],
        Tweak::GodMode => seq![
            r#"$DesktopPath = [System.IO.Path]::Combine([Environment]::GetFolderPath('Desktop'), 'GodMode.{ED7BA470-8E54-465E-825C-99712043E01C}')"#@,
            r#"New-Item -ItemType Directory -Path $DesktopPath -Force | Out-Null"#@,
            r#"Write-Output "God Mode folder successfully created on your Desktop.""#@,
        ],
        Tweak::FlushDNS => seq![
            r#"$DesktopPath = [System.IO.Path]::Combine([Environment]::GetFolderPath('Desktop'), "Flush DNS.bat")"#@,
            r#""@echo off`r`nipconfig /flushdns`r`necho DNS Cache Flushed!`r`npause" | Out-File -FilePath $DesktopPath -Encoding ascii -Force"#@,
            r#"Write-Output "Flush DNS batch shortcut created on your Desktop.""#@,
        ],
        Tweak::ScheduleCleanup => seq![
            r#"$Action = New-ScheduledTaskAction -Execute 'PowerShell.exe' -Argument '-NoProfile -WindowStyle Hidden -Command "Remove-Item -Path \"$env:TEMP\*\" -Recurse -Force -ErrorAction SilentlyContinue; Remove-Item -Path \"C:\Windows\Temp\*\" -Recurse -Force -ErrorAction SilentlyContinue; Clear-DnsClientCache -ErrorAction SilentlyContinue"'"#@,
            r#"$Trigger = New-ScheduledTaskTrigger -Daily -At '3:00 AM'"#@,
            r#"$Settings = New-ScheduledTaskSettingsSet -AllowStartIfOnBatteries -DontStopIfGoingOnBatteries -StartWhenAvailable"#@,
            r#"Register-ScheduledTask -TaskName "WinForgeDailyCleanup" -Action $Action -Trigger $Trigger -Settings $Settings -Description "Daily background temp files cleanup and DNS cache flush created by WinForge." -Force | Out-Null"#@,
            r#"Write-Output "Successfully scheduled daily cleanup task in Windows Task Scheduler.""#@,
        ],
    }
}

/// The commands that the script reverting a tweak runs, each on a line of
/// its own, and the confirmation that it prints; none for a tweak that
/// cannot be reverted.
pub open spec fn revert_commands(t: Tweak) -> Seq<Seq<char>> {
    match t {
        Tweak::CleanTemp => seq![],
        Tweak::Debloat => seq![
            r#"$apps = @("#@,
            r#""Microsoft.3DBuilder", "Microsoft.BingWeather", "Microsoft.GetHelp","#@,
            r#""Microsoft.Getstarted", "Microsoft.Messaging", "Microsoft.MicrosoftSolitaireCollection","#@,
            r#""Microsoft.MixedReality.Portal", "Microsoft.OneConnect", "Microsoft.People","#@,
            r#""Microsoft.Print3D", "Microsoft.SkypeApp", "Microsoft.Wallet", "Microsoft.XboxApp","#@,
            r#""Microsoft.XboxGameOverlay", "Microsoft.XboxGamingOverlay", "Microsoft.XboxIdentityProvider","#@,
            r#""Microsoft.YourPhone", "Microsoft.ZuneMusic", "Microsoft.ZuneVideo""#@,
            r#"foreach ($app in $apps) {"#@,
            r#"$manifest = (Get-AppxPackage -AllUsers -Name $app).InstallLocation + "\AppXManifest.xml""#@,
            r#"if (Test-Path $manifest) {"#@,
            r#"Add-AppxPackage -DisableDevelopmentMode -Register $manifest"#@,
            r#"Write-Output "Restored package manifests for debloated apps.""#@,
        ],
        Tweak::HighPerf => seq![
            r#"powercfg /setactive 381b4222-f694-41f0-9685-ff5bb260df2e"#@,
            r#"Write-Output "Balanced power plan activated.""#@,
        ],
        Tweak::VisualEffects => seq![
            r#"Set-ItemProperty -Path "HKCU:\Software\Microsoft\Windows\CurrentVersion\Explorer\VisualEffects" -Name "VisualFXSetting" -Value 0"#@,
            r#"Set-ItemProperty -Path "HKCU:\Control Panel\Desktop" -Name "UserPreferencesMask" -Value ([byte[]](158, 30, 7, 128, 18, 0, 0, 0))"#@,
            r#"Set-ItemProperty -Path "HKCU:\Control Panel\Desktop" -Name "MenuShowDelay" -Value "400""#@,
            r#"Write-Output "Visual effects restored to defaults.""#@,
        ],
        Tweak::NetworkTweak => seq![
            r#"netsh int tcp set global autotuninglevel=normal"#@,
            r#"netsh int tcp set global chimney=default"#@,
            r#"netsh int tcp set global dca=disabled"#@,
            r#"netsh int tcp set global netdma=disabled"#@,
            r#"netsh int tcp set global ecncapability=disabled"#@,
            r#"Write-Output "TCP Auto-Tuning and network settings restored to defaults.""#@,
        ],
        Tweak::DisableStartup => seq![
            r#"$localApp = $env:LOCALAPPDATA"#@,
            r#"if (Test-Path "$localApp\Microsoft\OneDrive\OneDrive.exe") {"#@,
            r#"Set-ItemProperty -Path "HKCU:\Software\Microsoft\Windows\CurrentVersion\Run" -Name "OneDrive" -Value "`"$localApp\Microsoft\OneDrive\OneDrive.exe`" /background""#@,
            r#"Remove-ItemProperty -Path "HKCU:\Software\Microsoft\Windows\CurrentVersion\Explorer\StartupApproved\Run" -Name "com.squirrel.Teams.Teams""#@,
            r#"Write-Output "Startup programs re-enabled.""#@,
        ],
        Tweak::DarkMode => seq![
            r#"Set-ItemProperty -Path "HKCU:\Software\Microsoft\Windows\CurrentVersion\Themes\Personalize" -Name "AppsUseLightTheme" -Value 1"#@,
            r#"Set-ItemProperty -Name "SystemUsesLightTheme" -Path "HKCU:\Software\Microsoft\Windows\CurrentVersion\Themes\Personalize" -Value 1"#@,
            r#"Write-Output "Light Mode re-enabled.""#@,
        ],
        Tweak::Telemetry => seq![
            r#"Set-Service -Name "DiagTrack" -StartupType Automatic"#@,
            r#"Start-Service -Name "DiagTrack""#@,
            r#"Remove-ItemProperty -Path "HKLM:\SOFTWARE\Policies\Microsoft\Windows\DataCollection" -Name "AllowTelemetry""#@,
            r#"Remove-ItemProperty -Path "HKLM:\SOFTWARE\Microsoft\Windows\CurrentVersion\Policies\DataCollection" -Name "AllowTelemetry""#@,
            r#"Write-Output "Telemetry services and Windows tracking re-enabled.""#@,
        ],
        Tweak::DefaultBrowserPrompt => seq![
            r#"Remove-ItemProperty -Path "HKCU:\Software\Policies\Microsoft\Edge" -Name "DefaultBrowserSettingEnabled""#@,
            r#"Remove-ItemProperty -Path "HKCU:\Software\Policies\Microsoft\Edge" -Name "HideFirstRunExperience""#@,
            r#"Write-Output "Edge default browser prompts re-enabled.""#@,
        ],
        Tweak::TrimSSD => seq![],
        Tweak::DisableHibernate => seq![
            r#"powercfg.exe /hibernate on"#@,
            r#"Write-Output "Hibernation re-enabled.""#@,
        ],
        Tweak::ResetNetwork => seq![],
        Tweak::DisableCortana => seq![
            r#"Remove-ItemProperty -Path "HKLM:\SOFTWARE\Policies\Microsoft\Windows\Windows Search" -Name "AllowCortana""#@,
            r#"Remove-ItemProperty -Path "HKCU:\Software\Microsoft\Windows\CurrentVersion\Search" -Name "BingSearchEnabled""#@,
            r#"Remove-ItemProperty -Path "HKCU:\Software\Microsoft\Windows\CurrentVersion\Search" -Name "CortanaConsent""#@,
            r#"Write-Output "Cortana and Bing web search re-enabled.""#@,
        ],
        Tweak::DisableGameDVR => seq![
            r#"Set-ItemProperty -Path "HKCU:\System\GameConfigStore" -Name "GameDVR_Enabled" -Value 1"#@,
            r#"Remove-ItemProperty -Path "HKLM:\SOFTWARE\Policies\Microsoft\Windows\GameDVR" -Name "AllowGameDVR""#@,
            r#"Write-Output "Xbox Game DVR re-enabled.""#@,
        ],
        Tweak::CloudflareDns => seq![
            r#"$adapters = Get-NetAdapter | Where-Object {$_.Status -eq 'Up'}"#@,
            r#"foreach ($adapter in $adapters) {"#@,
            r#"Set-DnsClientServerAddress -InterfaceIndex $adapter.InterfaceIndex -ResetServerAddresses"#@,
            r#"Write-Output "DNS settings reset to default.""#@,
        ],
        Tweak::DisableIndexing => seq![
            r#"Set-Service -Name "WSearch" -StartupType Automatic"#@,
            r#"Start-Service -Name "WSearch""#@,
            r#"Write-Output "Windows Search Indexing service re-enabled.""#@,
        ],
        Tweak::GodMode => seq![
            r#"$DesktopPath = [System.IO.Path]::Combine([Environment]::GetFolderPath('Desktop'), 'GodMode.{ED7BA470-8E54-465E-825C-99712043E01C}')"#@,
            r#"if (Test-Path $DesktopPath) {"#@,
            r#"Remove-Item -Path $DesktopPath -Recurse -Force"#@,
            r#"Write-Output "God Mode folder removed.""#@,
            r#"} else {"#@,
            r#"Write-Output "God Mode folder not found.""#@,
        ],
        Tweak::FlushDNS => seq![
            r#"$DesktopPath = [System.IO.Path]::Combine([Environment]::GetFolderPath('Desktop'), "Flush DNS.bat")"#@,
            r#"if (Test-Path $DesktopPath) {"#@,
            r#"Remove-Item -Path $DesktopPath -Force"#@,
            r#"Write-Output "Flush DNS shortcut removed.""#@,
            r#"} else {"#@,
            r#"Write-Output "Flush DNS shortcut not found.""#@,
        ],
        Tweak::ScheduleCleanup => seq![
            r#"Unregister-ScheduledTask -TaskName "WinForgeDailyCleanup" -Confirm:$false"#@,
            r#"Write-Output "Scheduled cleanup task removed.""#@,
        ],
    }
}

proof fn lemma_apply_clean_temp()
    ensures
        forall|j: int| 0 <= j < apply_commands(Tweak::CleanTemp).len() ==> contains_seq(APPLY_CLEAN_TEMP@, #[trigger] apply_commands(Tweak::CleanTemp)[j]),
{
    reveal_strlit(r#"
            $ErrorActionPreference = 'SilentlyContinue'
            Remove-Item -Path "$env:TEMP\*" -Recurse -Force
            Remove-Item -Path "C:\Windows\Temp\*" -Recurse -Force
            Clear-DnsClientCache
            Write-Output "Cleaned temp files, prefetch, and DNS cache."
            "#);
    reveal_strlit(r#"Remove-Item -Path "$env:TEMP\*" -Recurse -Force"#);
    assert(APPLY_CLEAN_TEMP@.subrange(69, 116) =~= apply_commands(Tweak::CleanTemp)[0]);
    assert(occurs_at(APPLY_CLEAN_TEMP@, apply_commands(Tweak::CleanTemp)[0], 69));
    reveal_strlit(r#"Remove-Item -Path "C:\Windows\Temp\*" -Recurse -Force"#);
    assert(APPLY_CLEAN_TEMP@.subrange(129, 182) =~= apply_commands(Tweak::CleanTemp)[1]);
    assert(occurs_at(APPLY_CLEAN_TEMP@, apply_commands(Tweak::CleanTemp)[1], 129));
    reveal_strlit(r#"Clear-DnsClientCache"#);
    assert(APPLY_CLEAN_TEMP@.subrange(195, 215) =~= apply_commands(Tweak::CleanTemp)[2]);
    assert(occurs_at(APPLY_CLEAN_TEMP@, apply_commands(Tweak::CleanTemp)[2], 195));
    reveal_strlit(r#"Write-Output "Cleaned temp files, prefetch, and DNS cache.""#);
    assert(APPLY_CLEAN_TEMP@.subrange(228, 287) =~= apply_commands(Tweak::CleanTemp)[3]);
    assert(occurs_at(APPLY_CLEAN_TEMP@, apply_commands(Tweak::CleanTemp)[3], 228));
    assert forall|j: int| 0 <= j < apply_commands(Tweak::CleanTemp).len() implies contains_seq(APPLY_CLEAN_TEMP@, #[trigger] apply_commands(Tweak::CleanTemp)[j]) by {
        if j == 0 {
            assert(occurs_at(APPLY_CLEAN_TEMP@, apply_commands(Tweak::CleanTemp)[0], 69));
        } else if j == 1 {
            assert(occurs_at(APPLY_CLEAN_TEMP@, apply_commands(Tweak::CleanTemp)[1], 129));
        } else if j == 2 {
            assert(occurs_at(APPLY_CLEAN_TEMP@, apply_commands(Tweak::CleanTemp)[2], 195));
        } else if j == 3 {
            assert(occurs_at(APPLY_CLEAN_TEMP@, apply_commands(Tweak::CleanTemp)[3], 228));
        }
    }
}

proof fn lemma_apply_debloat()
    ensures
        forall|j: int| 0 <= j < apply_commands(Tweak::Debloat).len() ==> contains_seq(APPLY_DEBLOAT@, #[trigger] apply_commands(Tweak::Debloat)[j]),
{
    reveal_strlit(r#"
            $ErrorActionPreference = 'SilentlyContinue'
            $apps = @(
                "Microsoft.3DBuilder", "Microsoft.BingWeather", "Microsoft.GetHelp", 
                "Microsoft.Getstarted", "Microsoft.Messaging", "Microsoft.MicrosoftSolitaireCollection", 
                "Microsoft.MixedReality.Portal", "Microsoft.OneConnect", "Microsoft.People", 
                "Microsoft.Print3D", "Microsoft.SkypeApp", "Microsoft.Wallet", "Microsoft.XboxApp", 
                "Microsoft.XboxGameOverlay", "Microsoft.XboxGamingOverlay", "Microsoft.XboxIdentityProvider", 
                "Microsoft.YourPhone", "Microsoft.ZuneMusic", "Microsoft.ZuneVideo"
            )
            $count = 0
            foreach ($app in $apps) {
                $p = Get-AppxPackage -Name $app -AllUsers
                if ($p) {
                    $p | Remove-AppxPackage
                    $count++
                }
            }
            Write-Output "Successfully removed $count pre-installed bloatware apps."
            "#);
    reveal_strlit(r#"$apps = @("#);
    assert(APPLY_DEBLOAT@.subrange(69, 79) =~= apply_commands(Tweak::Debloat)[0]);
    assert(occurs_at(APPLY_DEBLOAT@, apply_commands(Tweak::Debloat)[0], 69));
    reveal_strlit(r#""Microsoft.3DBuilder", "Microsoft.BingWeather", "Microsoft.GetHelp","#);
    assert(APPLY_DEBLOAT@.subrange(96, 164) =~= apply_commands(Tweak::Debloat)[1]);
    assert(occurs_at(APPLY_DEBLOAT@, apply_commands(Tweak::Debloat)[1], 96));
    reveal_strlit(r#""Microsoft.Getstarted", "Microsoft.Messaging", "Microsoft.MicrosoftSolitaireCollection","#);
    assert(APPLY_DEBLOAT@.subrange(182, 270) =~= apply_commands(Tweak::Debloat)[2]);
    assert(occurs_at(APPLY_DEBLOAT@, apply_commands(Tweak::Debloat)[2], 182));
    reveal_strlit(r#""Microsoft.MixedReality.Portal", "Microsoft.OneConnect", "Microsoft.People","#);
    assert(APPLY_DEBLOAT@.subrange(288, 364) =~= apply_commands(Tweak::Debloat)[3]);
    assert(occurs_at(APPLY_DEBLOAT@, apply_commands(Tweak::Debloat)[3], 288));
    reveal_strlit(r#""Microsoft.Print3D", "Microsoft.SkypeApp", "Microsoft.Wallet", "Microsoft.XboxApp","#);
    assert(APPLY_DEBLOAT@.subrange(382, 465) =~= apply_commands(Tweak::Debloat)[4]);
    assert(occurs_at(APPLY_DEBLOAT@, apply_commands(Tweak::Debloat)[4], 382));
    reveal_strlit(r#""Microsoft.XboxGameOverlay", "Microsoft.XboxGamingOverlay", "Microsoft.XboxIdentityProvider","#);
    assert(APPLY_DEBLOAT@.subrange(483, 576) =~= apply_commands(Tweak::Debloat)[5]);
    assert(occurs_at(APPLY_DEBLOAT@, apply_commands(Tweak::Debloat)[5], 483));
    reveal_strlit(r#""Microsoft.YourPhone", "Microsoft.ZuneMusic", "Microsoft.ZuneVideo""#);
    assert(APPLY_DEBLOAT@.subrange(594, 661) =~= apply_commands(Tweak::Debloat)[6]);
    assert(occurs_at(APPLY_DEBLOAT@, apply_commands(Tweak::Debloat)[6], 594));
    reveal_strlit(r#"$count = 0"#);
    assert(APPLY_DEBLOAT@.subrange(688, 698) =~= apply_commands(Tweak::Debloat)[7]);
    assert(occurs_at(APPLY_DEBLOAT@, apply_commands(Tweak::Debloat)[7], 688));
    reveal_strlit(r#"foreach ($app in $apps) {"#);
    assert(APPLY_DEBLOAT@.subrange(711, 736) =~= apply_commands(Tweak::Debloat)[8]);
    assert(occurs_at(APPLY_DEBLOAT@, apply_commands(Tweak::Debloat)[8], 711));
    reveal_strlit(r#"$p = Get-AppxPackage -Name $app -AllUsers"#);
    assert(APPLY_DEBLOAT@.subrange(753, 794) =~= apply_commands(Tweak::Debloat)[9]);
    assert(occurs_at(APPLY_DEBLOAT@, apply_commands(Tweak::Debloat)[9], 753));
    reveal_strlit(r#"if ($p) {"#);
    assert(APPLY_DEBLOAT@.subrange(811, 820) =~= apply_commands(Tweak::Debloat)[10]);
    assert(occurs_at(APPLY_DEBLOAT@, apply_commands(Tweak::Debloat)[10], 811));
    reveal_strlit(r#"$p | Remove-AppxPackage"#);
    assert(APPLY_DEBLOAT@.subrange(841, 864) =~= apply_commands(Tweak::Debloat)[11]);
    assert(occurs_at(APPLY_DEBLOAT@, apply_commands(Tweak::Debloat)[11], 841));
    reveal_strlit(r#"$count++"#);
    assert(APPLY_DEBLOAT@.subrange(885, 893) =~= apply_commands(Tweak::Debloat)[12]);
    assert(occurs_at(APPLY_DEBLOAT@, apply_commands(Tweak::Debloat)[12], 885));
    reveal_strlit(r#"Write-Output "Successfully removed $count pre-installed bloatware apps.""#);
    assert(APPLY_DEBLOAT@.subrange(938, 1010) =~= apply_commands(Tweak::Debloat)[13]);
    assert(occurs_at(APPLY_DEBLOAT@, apply_commands(Tweak::Debloat)[13], 938));
    assert forall|j: int| 0 <= j < apply_commands(Tweak::Debloat).len() implies contains_seq(APPLY_DEBLOAT@, #[trigger] apply_commands(Tweak::Debloat)[j]) by {
        if j == 0 {
            assert(occurs_at(APPLY_DEBLOAT@, apply_commands(Tweak::Debloat)[0], 69));
        } else if j == 1 {
            assert(occurs_at(APPLY_DEBLOAT@, apply_commands(Tweak::Debloat)[1], 96));
        } else if j == 2 {
            assert(occurs_at(APPLY_DEBLOAT@, apply_commands(Tweak::Debloat)[2], 182));
        } else if j == 3 {
            assert(occurs_at(APPLY_DEBLOAT@, apply_commands(Tweak::Debloat)[3], 288));
        } else if j == 4 {
            assert(occurs_at(APPLY_DEBLOAT@, apply_commands(Tweak::Debloat)[4], 382));
        } else if j == 5 {
            assert(occurs_at(APPLY_DEBLOAT@, apply_commands(Tweak::Debloat)[5], 483));
        } else if j == 6 {
            assert(occurs_at(APPLY_DEBLOAT@, apply_commands(Tweak::Debloat)[6], 594));
        } else if j == 7 {
            assert(occurs_at(APPLY_DEBLOAT@, apply_commands(Tweak::Debloat)[7], 688));
        } else if j == 8 {
            assert(occurs_at(APPLY_DEBLOAT@, apply_commands(Tweak::Debloat)[8], 711));
        } else if j == 9 {
            assert(occurs_at(APPLY_DEBLOAT@, apply_commands(Tweak::Debloat)[9], 753));
        } else if j == 10 {
            assert(occurs_at(APPLY_DEBLOAT@, apply_commands(Tweak::Debloat)[10], 811));
        } else if j == 11 {
            assert(occurs_at(APPLY_DEBLOAT@, apply_commands(Tweak::Debloat)[11], 841));
        } else if j == 12 {
            assert(occurs_at(APPLY_DEBLOAT@, apply_commands(Tweak::Debloat)[12], 885));
        } else if j == 13 {
            assert(occurs_at(APPLY_DEBLOAT@, apply_commands(Tweak::Debloat)[13], 938));
        }
    }
}

proof fn lemma_apply_high_perf()
    ensures
        forall|j: int| 0 <= j < apply_commands(Tweak::HighPerf).len() ==> contains_seq(APPLY_HIGH_PERF@, #[trigger] apply_commands(Tweak::HighPerf)[j]),
{
    reveal_strlit(r#"
            $ErrorActionPreference = 'SilentlyContinue'
            powercfg /setactive 8c5e7fda-e8bf-4a94-9a85-a6e23a8c635c
            powercfg /duplicatescheme e9a42b02-d5df-448d-aa00-03f14749eb61 | Out-Null
            $plans = powercfg /list
            $ultimate = $plans | Select-String "Ultimate Performance"
            if ($ultimate) {
                $guid = [regex]::Match($ultimate.Line, '([a-f0-9]{8}-[a-f0-9]{4}-[a-f0-9]{4}-[a-f0-9]{4}-[a-f0-9]{12})').Value
                powercfg /setactive $guid
                Write-Output "Ultimate Performance plan activated."
            } else {
                Write-Output "High Performance plan activated."
            }
            "#);
    reveal_strlit(r#"powercfg /setactive 8c5e7fda-e8bf-4a94-9a85-a6e23a8c635c"#);
    assert(APPLY_HIGH_PERF@.subrange(69, 125) =~= apply_commands(Tweak::HighPerf)[0]);
    assert(occurs_at(APPLY_HIGH_PERF@, apply_commands(Tweak::HighPerf)[0], 69));
    reveal_strlit(r#"powercfg /duplicatescheme e9a42b02-d5df-448d-aa00-03f14749eb61 | Out-Null"#);
    assert(APPLY_HIGH_PERF@.subrange(138, 211) =~= apply_commands(Tweak::HighPerf)[1]);
    assert(occurs_at(APPLY_HIGH_PERF@, apply_commands(Tweak::HighPerf)[1], 138));
    reveal_strlit(r#"$plans = powercfg /list"#);
    assert(APPLY_HIGH_PERF@.subrange(224, 247) =~= apply_commands(Tweak::HighPerf)[2]);
    assert(occurs_at(APPLY_HIGH_PERF@, apply_commands(Tweak::HighPerf)[2], 224));
    reveal_strlit(r#"$ultimate = $plans | Select-String "Ultimate Performance""#);
    assert(APPLY_HIGH_PERF@.subrange(260, 317) =~= apply_commands(Tweak::HighPerf)[3]);
    assert(occurs_at(APPLY_HIGH_PERF@, apply_commands(Tweak::HighPerf)[3], 260));
    reveal_strlit(r#"if ($ultimate) {"#);
    assert(APPLY_HIGH_PERF@.subrange(330, 346) =~= apply_commands(Tweak::HighPerf)[4]);
    assert(occurs_at(APPLY_HIGH_PERF@, apply_commands(Tweak::HighPerf)[4], 330));
    reveal_strlit(r#"$guid = [regex]::Match($ultimate.Line, '([a-f0-9]{8}-[a-f0-9]{4}-[a-f0-9]{4}-[a-f0-9]{4}-[a-f0-9]{12})').Value"#);
    assert(APPLY_HIGH_PERF@.subrange(363, 473) =~= apply_commands(Tweak::HighPerf)[5]);
    assert(occurs_at(APPLY_HIGH_PERF@, apply_commands(Tweak::HighPerf)[5], 363));
    reveal_strlit(r#"powercfg /setactive $guid"#);
    assert(APPLY_HIGH_PERF@.subrange(490, 515) =~= apply_commands(Tweak::HighPerf)[6]);
    assert(occurs_at(APPLY_HIGH_PERF@, apply_commands(Tweak::HighPerf)[6], 490));
    reveal_strlit(r#"Write-Output "Ultimate Performance plan activated.""#);
    assert(APPLY_HIGH_PERF@.subrange(532, 583) =~= apply_commands(Tweak::HighPerf)[7]);
    assert(occurs_at(APPLY_HIGH_PERF@, apply_commands(Tweak::HighPerf)[7], 532));
    reveal_strlit(r#"} else {"#);
    assert(APPLY_HIGH_PERF@.subrange(596, 604) =~= apply_commands(Tweak::HighPerf)[8]);
    assert(occurs_at(APPLY_HIGH_PERF@, apply_commands(Tweak::HighPerf)[8], 596));
    reveal_strlit(r#"Write-Output "High Performance plan activated.""#);
    assert(APPLY_HIGH_PERF@.subrange(621, 668) =~= apply_commands(Tweak::HighPerf)[9]);
    assert(occurs_at(APPLY_HIGH_PERF@, apply_commands(Tweak::HighPerf)[9], 621));
    assert forall|j: int| 0 <= j < apply_commands(Tweak::HighPerf).len() implies contains_seq(APPLY_HIGH_PERF@, #[trigger] apply_commands(Tweak::HighPerf)[j]) by {
        if j == 0 {
            assert(occurs_at(APPLY_HIGH_PERF@, apply_commands(Tweak::HighPerf)[0], 69));
        } else if j == 1 {
            assert(occurs_at(APPLY_HIGH_PERF@, apply_commands(Tweak::HighPerf)[1], 138));
        } else if j == 2 {
            assert(occurs_at(APPLY_HIGH_PERF@, apply_commands(Tweak::HighPerf)[2], 224));
        } else if j == 3 {
            assert(occurs_at(APPLY_HIGH_PERF@, apply_commands(Tweak::HighPerf)[3], 260));
        } else if j == 4 {
            assert(occurs_at(APPLY_HIGH_PERF@, apply_commands(Tweak::HighPerf)[4], 330));
        } else if j == 5 {
            assert(occurs_at(APPLY_HIGH_PERF@, apply_commands(Tweak::HighPerf)[5], 363));
        } else if j == 6 {
            assert(occurs_at(APPLY_HIGH_PERF@, apply_commands(Tweak::HighPerf)[6], 490));
        } else if j == 7 {
            assert(occurs_at(APPLY_HIGH_PERF@, apply_commands(Tweak::HighPerf)[7], 532));
        } else if j == 8 {
            assert(occurs_at(APPLY_HIGH_PERF@, apply_commands(Tweak::HighPerf)[8], 596));
        } else if j == 9 {
            assert(occurs_at(APPLY_HIGH_PERF@, apply_commands(Tweak::HighPerf)[9], 621));
        }
    }
}

proof fn lemma_apply_visual_effects()
    ensures
        forall|j: int| 0 <= j < apply_commands(Tweak::VisualEffects).len() ==> contains_seq(APPLY_VISUAL_EFFECTS@, #[trigger] apply_commands(Tweak::VisualEffects)[j]),
{
    reveal_strlit(r#"
            $ErrorActionPreference = 'SilentlyContinue'
            Set-ItemProperty -Path "HKCU:\Software\Microsoft\Windows\CurrentVersion\Explorer\VisualEffects" -Name "VisualFXSetting" -Value 2
            Set-ItemProperty -Path "HKCU:\Control Panel\Desktop" -Name "UserPreferencesMask" -Value ([byte[]](144, 18, 3, 128, 16, 0, 0, 0))
            Set-ItemProperty -Path "HKCU:\Control Panel\Desktop" -Name "MenuShowDelay" -Value "0"
            Write-Output "Visual effects optimized for performance."
            "#);
    reveal_strlit(r#"Set-ItemProperty -Path "HKCU:\Software\Microsoft\Windows\CurrentVersion\Explorer\VisualEffects" -Name "VisualFXSetting" -Value 2"#);
    assert(APPLY_VISUAL_EFFECTS@.subrange(69, 197) =~= apply_commands(Tweak::VisualEffects)[0]);
    assert(occurs_at(APPLY_VISUAL_EFFECTS@, apply_commands(Tweak::VisualEffects)[0], 69));
    reveal_strlit(r#"Set-ItemProperty -Path "HKCU:\Control Panel\Desktop" -Name "UserPreferencesMask" -Value ([byte[]](144, 18, 3, 128, 16, 0, 0, 0))"#);
    assert(APPLY_VISUAL_EFFECTS@.subrange(210, 338) =~= apply_commands(Tweak::VisualEffects)[1]);
    assert(occurs_at(APPLY_VISUAL_EFFECTS@, apply_commands(Tweak::VisualEffects)[1], 210));
    reveal_strlit(r#"Set-ItemProperty -Path "HKCU:\Control Panel\Desktop" -Name "MenuShowDelay" -Value "0""#);
    assert(APPLY_VISUAL_EFFECTS@.subrange(351, 436) =~= apply_commands(Tweak::VisualEffects)[2]);
    assert(occurs_at(APPLY_VISUAL_EFFECTS@, apply_commands(Tweak::VisualEffects)[2], 351));
    reveal_strlit(r#"Write-Output "Visual effects optimized for performance.""#);
    assert(APPLY_VISUAL_EFFECTS@.subrange(449, 505) =~= apply_commands(Tweak::VisualEffects)[3]);
    assert(occurs_at(APPLY_VISUAL_EFFECTS@, apply_commands(Tweak::VisualEffects)[3], 449));
    assert forall|j: int| 0 <= j < apply_commands(Tweak::VisualEffects).len() implies contains_seq(APPLY_VISUAL_EFFECTS@, #[trigger] apply_commands(Tweak::VisualEffects)[j]) by {
        if j == 0 {
            assert(occurs_at(APPLY_VISUAL_EFFECTS@, apply_commands(Tweak::VisualEffects)[0], 69));
        } else if j == 1 {
            assert(occurs_at(APPLY_VISUAL_EFFECTS@, apply_commands(Tweak::VisualEffects)[1], 210));
        } else if j == 2 {
            assert(occurs_at(APPLY_VISUAL_EFFECTS@, apply_commands(Tweak::VisualEffects)[2], 351));
        } else if j == 3 {
            assert(occurs_at(APPLY_VISUAL_EFFECTS@, apply_commands(Tweak::VisualEffects)[3], 449));
        }
    }
}

proof fn lemma_apply_network_tweak()
    ensures
        forall|j: int| 0 <= j < apply_commands(Tweak::NetworkTweak).len() ==> contains_seq(APPLY_NETWORK_TWEAK@, #[trigger] apply_commands(Tweak::NetworkTweak)[j]),
{
    reveal_strlit(r#"
            $ErrorActionPreference = 'SilentlyContinue'
            netsh int tcp set global autotuninglevel=normal
            netsh int tcp set global chimney=enabled
            netsh int tcp set global dca=enabled
            netsh int tcp set global netdma=enabled
            netsh int tcp set global ecncapability=enabled
            Write-Output "TCP Auto-Tuning and network adapter settings optimized."
            "#);
    reveal_strlit(r#"netsh int tcp set global autotuninglevel=normal"#);
    assert(APPLY_NETWORK_TWEAK@.subrange(69, 116) =~= apply_commands(Tweak::NetworkTweak)[0]);
    assert(occurs_at(APPLY_NETWORK_TWEAK@, apply_commands(Tweak::NetworkTweak)[0], 69));
    reveal_strlit(r#"netsh int tcp set global chimney=enabled"#);
    assert(APPLY_NETWORK_TWEAK@.subrange(129, 169) =~= apply_commands(Tweak::NetworkTweak)[1]);
    assert(occurs_at(APPLY_NETWORK_TWEAK@, apply_commands(Tweak::NetworkTweak)[1], 129));
    reveal_strlit(r#"netsh int tcp set global dca=enabled"#);
    assert(APPLY_NETWORK_TWEAK@.subrange(182, 218) =~= apply_commands(Tweak::NetworkTweak)[2]);
    assert(occurs_at(APPLY_NETWORK_TWEAK@, apply_commands(Tweak::NetworkTweak)[2], 182));
    reveal_strlit(r#"netsh int tcp set global netdma=enabled"#);
    assert(APPLY_NETWORK_TWEAK@.subrange(231, 270) =~= apply_commands(Tweak::NetworkTweak)[3]);
    assert(occurs_at(APPLY_NETWORK_TWEAK@, apply_commands(Tweak::NetworkTweak)[3], 231));
    reveal_strlit(r#"netsh int tcp set global ecncapability=enabled"#);
    assert(APPLY_NETWORK_TWEAK@.subrange(283, 329) =~= apply_commands(Tweak::NetworkTweak)[4]);
    assert(occurs_at(APPLY_NETWORK_TWEAK@, apply_commands(Tweak::NetworkTweak)[4], 283));
    reveal_strlit(r#"Write-Output "TCP Auto-Tuning and network adapter settings optimized.""#);
    assert(APPLY_NETWORK_TWEAK@.subrange(342, 412) =~= apply_commands(Tweak::NetworkTweak)[5]);
    assert(occurs_at(APPLY_NETWORK_TWEAK@, apply_commands(Tweak::NetworkTweak)[5], 342));
    assert forall|j: int| 0 <= j < apply_commands(Tweak::NetworkTweak).len() implies contains_seq(APPLY_NETWORK_TWEAK@, #[trigger] apply_commands(Tweak::NetworkTweak)[j]) by {
        if j == 0 {
            assert(occurs_at(APPLY_NETWORK_TWEAK@, apply_commands(Tweak::NetworkTweak)[0], 69));
        } else if j == 1 {
            assert(occurs_at(APPLY_NETWORK_TWEAK@, apply_commands(Tweak::NetworkTweak)[1], 129));
        } else if j == 2 {
            assert(occurs_at(APPLY_NETWORK_TWEAK@, apply_commands(Tweak::NetworkTweak)[2], 182));
        } else if j == 3 {
            assert(occurs_at(APPLY_NETWORK_TWEAK@, apply_commands(Tweak::NetworkTweak)[3], 231));
        } else if j == 4 {
            assert(occurs_at(APPLY_NETWORK_TWEAK@, apply_commands(Tweak::NetworkTweak)[4], 283));
        } else if j == 5 {
            assert(occurs_at(APPLY_NETWORK_TWEAK@, apply_commands(Tweak::NetworkTweak)[5], 342));
        }
    }
}

proof fn lemma_apply_disable_startup()
    ensures
        forall|j: int| 0 <= j < apply_commands(Tweak::DisableStartup).len() ==> contains_seq(APPLY_DISABLE_STARTUP@, #[trigger] apply_commands(Tweak::DisableStartup)[j]),
{
    reveal_strlit(r#"
            $ErrorActionPreference = 'SilentlyContinue'
            Remove-ItemProperty -Path "HKCU:\Software\Microsoft\Windows\CurrentVersion\Run" -Name "OneDrive"
            Remove-ItemProperty -Path "HKCU:\Software\Microsoft\Windows\CurrentVersion\Run" -Name "com.squirrel.Teams.Teams"
            Set-ItemProperty -Path "HKCU:\Software\Microsoft\Windows\CurrentVersion\Explorer\StartupApproved\Run" -Name "com.squirrel.Teams.Teams" -Value ([byte[]](3,0,0,0,0,0,0,0,0,0,0,0))
            Write-Output "Startup programs (OneDrive, Teams) disabled."
            "#);
    reveal_strlit(r#"Remove-ItemProperty -Path "HKCU:\Software\Microsoft\Windows\CurrentVersion\Run" -Name "OneDrive""#);
    assert(APPLY_DISABLE_STARTUP@.subrange(69, 165) =~= apply_commands(Tweak::DisableStartup)[0]);
    assert(occurs_at(APPLY_DISABLE_STARTUP@, apply_commands(Tweak::DisableStartup)[0], 69));
    reveal_strlit(r#"Remove-ItemProperty -Path "HKCU:\Software\Microsoft\Windows\CurrentVersion\Run" -Name "com.squirrel.Teams.Teams""#);
    assert(APPLY_DISABLE_STARTUP@.subrange(178, 290) =~= apply_commands(Tweak::DisableStartup)[1]);
    assert(occurs_at(APPLY_DISABLE_STARTUP@, apply_commands(Tweak::DisableStartup)[1], 178));
    reveal_strlit(r#"Set-ItemProperty -Path "HKCU:\Software\Microsoft\Windows\CurrentVersion\Explorer\StartupApproved\Run" -Name "com.squirrel.Teams.Teams" -Value ([byte[]](3,0,0,0,0,0,0,0,0,0,0,0))"#);
    assert(APPLY_DISABLE_STARTUP@.subrange(303, 480) =~= apply_commands(Tweak::DisableStartup)[2]);
    assert(occurs_at(APPLY_DISABLE_STARTUP@, apply_commands(Tweak::DisableStartup)[2], 303));
    reveal_strlit(r#"Write-Output "Startup programs (OneDrive, Teams) disabled.""#);
    assert(APPLY_DISABLE_STARTUP@.subrange(493, 552) =~= apply_commands(Tweak::DisableStartup)[3]);
    assert(occurs_at(APPLY_DISABLE_STARTUP@, apply_commands(Tweak::DisableStartup)[3], 493));
    assert forall|j: int| 0 <= j < apply_commands(Tweak::DisableStartup).len() implies contains_seq(APPLY_DISABLE_STARTUP@, #[trigger] apply_commands(Tweak::DisableStartup)[j]) by {
        if j == 0 {
            assert(occurs_at(APPLY_DISABLE_STARTUP@, apply_commands(Tweak::DisableStartup)[0], 69));
        } else if j == 1 {
            assert(occurs_at(APPLY_DISABLE_STARTUP@, apply_commands(Tweak::DisableStartup)[1], 178));
        } else if j == 2 {
            assert(occurs_at(APPLY_DISABLE_STARTUP@, apply_commands(Tweak::DisableStartup)[2], 303));
        } else if j == 3 {
            assert(occurs_at(APPLY_DISABLE_STARTUP@, apply_commands(Tweak::DisableStartup)[3], 493));
        }
    }
}

proof fn lemma_apply_dark_mode()
    ensures
        forall|j: int| 0 <= j < apply_commands(Tweak::DarkMode).len() ==> contains_seq(APPLY_DARK_MODE@, #[trigger] apply_commands(Tweak::DarkMode)[j]),
{
    reveal_strlit(r#"
            $ErrorActionPreference = 'SilentlyContinue'
            Set-ItemProperty -Path "HKCU:\Software\Microsoft\Windows\CurrentVersion\Themes\Personalize" -Name "AppsUseLightTheme" -Value 0
            Set-ItemProperty -Name "SystemUsesLightTheme" -Path "HKCU:\Software\Microsoft\Windows\CurrentVersion\Themes\Personalize" -Value 0
            Write-Output "Dark Mode enabled system-wide."
            "#);
    reveal_strlit(r#"Set-ItemProperty -Path "HKCU:\Software\Microsoft\Windows\CurrentVersion\Themes\Personalize" -Name "AppsUseLightTheme" -Value 0"#);
    assert(APPLY_DARK_MODE@.subrange(69, 195) =~= apply_commands(Tweak::DarkMode)[0]);
    assert(occurs_at(APPLY_DARK_MODE@, apply_commands(Tweak::DarkMode)[0], 69));
    reveal_strlit(r#"Set-ItemProperty -Name "SystemUsesLightTheme" -Path "HKCU:\Software\Microsoft\Windows\CurrentVersion\Themes\Personalize" -Value 0"#);
    assert(APPLY_DARK_MODE@.subrange(208, 337) =~= apply_commands(Tweak::DarkMode)[1]);
    assert(occurs_at(APPLY_DARK_MODE@, apply_commands(Tweak::DarkMode)[1], 208));
    reveal_strlit(r#"Write-Output "Dark Mode enabled system-wide.""#);
    assert(APPLY_DARK_MODE@.subrange(350, 395) =~= apply_commands(Tweak::DarkMode)[2]);
    assert(occurs_at(APPLY_DARK_MODE@, apply_commands(Tweak::DarkMode)[2], 350));
    assert forall|j: int| 0 <= j < apply_commands(Tweak::DarkMode).len() implies contains_seq(APPLY_DARK_MODE@, #[trigger] apply_commands(Tweak::DarkMode)[j]) by {
        if j == 0 {
            assert(occurs_at(APPLY_DARK_MODE@, apply_commands(Tweak::DarkMode)[0], 69));
        } else if j == 1 {
            assert(occurs_at(APPLY_DARK_MODE@, apply_commands(Tweak::DarkMode)[1], 208));
        } else if j == 2 {
            assert(occurs_at(APPLY_DARK_MODE@, apply_commands(Tweak::DarkMode)[2], 350));
        }
    }
}

proof fn lemma_apply_telemetry()
    ensures
        forall|j: int| 0 <= j < apply_commands(Tweak::Telemetry).len() ==> contains_seq(APPLY_TELEMETRY@, #[trigger] apply_commands(Tweak::Telemetry)[j]),
{
    reveal_strlit(r#"
            $ErrorActionPreference = 'SilentlyContinue'
            Stop-Service -Name "DiagTrack"
            Set-Service -Name "DiagTrack" -StartupType Disabled
            Set-ItemProperty -Path "HKLM:\SOFTWARE\Policies\Microsoft\Windows\DataCollection" -Name "AllowTelemetry" -Value 0
            Set-ItemProperty -Path "HKLM:\SOFTWARE\Microsoft\Windows\CurrentVersion\Policies\DataCollection" -Name "AllowTelemetry" -Value 0
            Write-Output "Telemetry services and Windows tracking disabled."
            "#);
    reveal_strlit(r#"Stop-Service -Name "DiagTrack""#);
    assert(APPLY_TELEMETRY@.subrange(69, 99) =~= apply_commands(Tweak::Telemetry)[0]);
    assert(occurs_at(APPLY_TELEMETRY@, apply_commands(Tweak::Telemetry)[0], 69));
    reveal_strlit(r#"Set-Service -Name "DiagTrack" -StartupType Disabled"#);
    assert(APPLY_TELEMETRY@.subrange(112, 163) =~= apply_commands(Tweak::Telemetry)[1]);
    assert(occurs_at(APPLY_TELEMETRY@, apply_commands(Tweak::Telemetry)[1], 112));
    reveal_strlit(r#"Set-ItemProperty -Path "HKLM:\SOFTWARE\Policies\Microsoft\Windows\DataCollection" -Name "AllowTelemetry" -Value 0"#);
    assert(APPLY_TELEMETRY@.subrange(176, 289) =~= apply_commands(Tweak::Telemetry)[2]);
    assert(occurs_at(APPLY_TELEMETRY@, apply_commands(Tweak::Telemetry)[2], 176));
    reveal_strlit(r#"Set-ItemProperty -Path "HKLM:\SOFTWARE\Microsoft\Windows\CurrentVersion\Policies\DataCollection" -Name "AllowTelemetry" -Value 0"#);
    assert(APPLY_TELEMETRY@.subrange(302, 430) =~= apply_commands(Tweak::Telemetry)[3]);
    assert(occurs_at(APPLY_TELEMETRY@, apply_commands(Tweak::Telemetry)[3], 302));
    reveal_strlit(r#"Write-Output "Telemetry services and Windows tracking disabled.""#);
    assert(APPLY_TELEMETRY@.subrange(443, 507) =~= apply_commands(Tweak::Telemetry)[4]);
    assert(occurs_at(APPLY_TELEMETRY@, apply_commands(Tweak::Telemetry)[4], 443));
    assert forall|j: int| 0 <= j < apply_commands(Tweak::Telemetry).len() implies contains_seq(APPLY_TELEMETRY@, #[trigger] apply_commands(Tweak::Telemetry)[j]) by {
        if j == 0 {
            assert(occurs_at(APPLY_TELEMETRY@, apply_commands(Tweak::Telemetry)[0], 69));
        } else if j == 1 {
            assert(occurs_at(APPLY_TELEMETRY@, apply_commands(Tweak::Telemetry)[1], 112));
        } else if j == 2 {
            assert(occurs_at(APPLY_TELEMETRY@, apply_commands(Tweak::Telemetry)[2], 176));
        } else if j == 3 {
            assert(occurs_at(APPLY_TELEMETRY@, apply_commands(Tweak::Telemetry)[3], 302));
        } else if j == 4 {
            assert(occurs_at(APPLY_TELEMETRY@, apply_commands(Tweak::Telemetry)[4], 443));
        }
    }
}

proof fn lemma_apply_default_browser_prompt()
    ensures
        forall|j: int| 0 <= j < apply_commands(Tweak::DefaultBrowserPrompt).len() ==> contains_seq(APPLY_DEFAULT_BROWSER_PROMPT@, #[trigger] apply_commands(Tweak::DefaultBrowserPrompt)[j]),
{
    reveal_strlit(r#"
            $ErrorActionPreference = 'SilentlyContinue'
            New-Item -Path "HKCU:\Software\Policies\Microsoft" -Name "Edge" -Force | Out-Null
            Set-ItemProperty -Path "HKCU:\Software\Policies\Microsoft\Edge" -Name "DefaultBrowserSettingEnabled" -Value 0
            Set-ItemProperty -Path "HKCU:\Software\Policies\Microsoft\Edge" -Name "HideFirstRunExperience" -Value 1
            Write-Output "Edge default browser prompt and first-run experience disabled."
            "#);
    reveal_strlit(r#"New-Item -Path "HKCU:\Software\Policies\Microsoft" -Name "Edge" -Force | Out-Null"#);
    assert(APPLY_DEFAULT_BROWSER_PROMPT@.subrange(69, 150) =~= apply_commands(Tweak::DefaultBrowserPrompt)[0]);
    assert(occurs_at(APPLY_DEFAULT_BROWSER_PROMPT@, apply_commands(Tweak::DefaultBrowserPrompt)[0], 69));
    reveal_strlit(r#"Set-ItemProperty -Path "HKCU:\Software\Policies\Microsoft\Edge" -Name "DefaultBrowserSettingEnabled" -Value 0"#);
    assert(APPLY_DEFAULT_BROWSER_PROMPT@.subrange(163, 272) =~= apply_commands(Tweak::DefaultBrowserPrompt)[1]);
    assert(occurs_at(APPLY_DEFAULT_BROWSER_PROMPT@, apply_commands(Tweak::DefaultBrowserPrompt)[1], 163));
    reveal_strlit(r#"Set-ItemProperty -Path "HKCU:\Software\Policies\Microsoft\Edge" -Name "HideFirstRunExperience" -Value 1"#);
    assert(APPLY_DEFAULT_BROWSER_PROMPT@.subrange(285, 388) =~= apply_commands(Tweak::DefaultBrowserPrompt)[2]);
    assert(occurs_at(APPLY_DEFAULT_BROWSER_PROMPT@, apply_commands(Tweak::DefaultBrowserPrompt)[2], 285));
    reveal_strlit(r#"Write-Output "Edge default browser prompt and first-run experience disabled.""#);
    assert(APPLY_DEFAULT_BROWSER_PROMPT@.subrange(401, 478) =~= apply_commands(Tweak::DefaultBrowserPrompt)[3]);
    assert(occurs_at(APPLY_DEFAULT_BROWSER_PROMPT@, apply_commands(Tweak::DefaultBrowserPrompt)[3], 401));
    assert forall|j: int| 0 <= j < apply_commands(Tweak::DefaultBrowserPrompt).len() implies contains_seq(APPLY_DEFAULT_BROWSER_PROMPT@, #[trigger] apply_commands(Tweak::DefaultBrowserPrompt)[j]) by {
        if j == 0 {
            assert(occurs_at(APPLY_DEFAULT_BROWSER_PROMPT@, apply_commands(Tweak::DefaultBrowserPrompt)[0], 69));
        } else if j == 1 {
            assert(occurs_at(APPLY_DEFAULT_BROWSER_PROMPT@, apply_commands(Tweak::DefaultBrowserPrompt)[1], 163));
        } else if j == 2 {
            assert(occurs_at(APPLY_DEFAULT_BROWSER_PROMPT@, apply_commands(Tweak::DefaultBrowserPrompt)[2], 285));
        } else if j == 3 {
            assert(occurs_at(APPLY_DEFAULT_BROWSER_PROMPT@, apply_commands(Tweak::DefaultBrowserPrompt)[3], 401));
        }
    }
}

proof fn lemma_apply_trim_ssd()
    ensures
        forall|j: int| 0 <= j < apply_commands(Tweak::TrimSSD).len() ==> contains_seq(APPLY_TRIM_SSD@, #[trigger] apply_commands(Tweak::TrimSSD)[j]),
{
    reveal_strlit(r#"
            $ErrorActionPreference = 'SilentlyContinue'
            Get-Volume | Where-Object {$_.DriveType -eq 'Fixed' -and $_.FileSystemLabel -ne 'System Reserved'} | Optimize-Volume -Defrag -Trim -Verbose
            Write-Output "TRIM optimization triggered on all volumes."
            "#);
    reveal_strlit(r#"Get-Volume | Where-Object {$_.DriveType -eq 'Fixed' -and $_.FileSystemLabel -ne 'System Reserved'} | Optimize-Volume -Defrag -Trim -Verbose"#);
    assert(APPLY_TRIM_SSD@.subrange(69, 208) =~= apply_commands(Tweak::TrimSSD)[0]);
    assert(occurs_at(APPLY_TRIM_SSD@, apply_commands(Tweak::TrimSSD)[0], 69));
    reveal_strlit(r#"Write-Output "TRIM optimization triggered on all volumes.""#);
    assert(APPLY_TRIM_SSD@.subrange(221, 279) =~= apply_commands(Tweak::TrimSSD)[1]);
    assert(occurs_at(APPLY_TRIM_SSD@, apply_commands(Tweak::TrimSSD)[1], 221));
    assert forall|j: int| 0 <= j < apply_commands(Tweak::TrimSSD).len() implies contains_seq(APPLY_TRIM_SSD@, #[trigger] apply_commands(Tweak::TrimSSD)[j]) by {
        if j == 0 {
            assert(occurs_at(APPLY_TRIM_SSD@, apply_commands(Tweak::TrimSSD)[0], 69));
        } else if j == 1 {
            assert(occurs_at(APPLY_TRIM_SSD@, apply_commands(Tweak::TrimSSD)[1], 221));
        }
    }
}

proof fn lemma_apply_disable_hibernate()
    ensures
        forall|j: int| 0 <= j < apply_commands(Tweak::DisableHibernate).len() ==> contains_seq(APPLY_DISABLE_HIBERNATE@, #[trigger] apply_commands(Tweak::DisableHibernate)[j]),
{
    reveal_strlit(r#"
            $ErrorActionPreference = 'SilentlyContinue'
            powercfg.exe /hibernate off
            Write-Output "Hibernation disabled system-wide."
            "#);
    reveal_strlit(r#"powercfg.exe /hibernate off"#);
    assert(APPLY_DISABLE_HIBERNATE@.subrange(69, 96) =~= apply_commands(Tweak::DisableHibernate)[0]);
    assert(occurs_at(APPLY_DISABLE_HIBERNATE@, apply_commands(Tweak::DisableHibernate)[0], 69));
    reveal_strlit(r#"Write-Output "Hibernation disabled system-wide.""#);
    assert(APPLY_DISABLE_HIBERNATE@.subrange(109, 157) =~= apply_commands(Tweak::DisableHibernate)[1]);
    assert(occurs_at(APPLY_DISABLE_HIBERNATE@, apply_commands(Tweak::DisableHibernate)[1], 109));
    assert forall|j: int| 0 <= j < apply_commands(Tweak::DisableHibernate).len() implies contains_seq(APPLY_DISABLE_HIBERNATE@, #[trigger] apply_commands(Tweak::DisableHibernate)[j]) by {
        if j == 0 {
            assert(occurs_at(APPLY_DISABLE_HIBERNATE@, apply_commands(Tweak::DisableHibernate)[0], 69));
        } else if j == 1 {
            assert(occurs_at(APPLY_DISABLE_HIBERNATE@, apply_commands(Tweak::DisableHibernate)[1], 109));
        }
    }
}

proof fn lemma_apply_reset_network()
    ensures
        forall|j: int| 0 <= j < apply_commands(Tweak::ResetNetwork).len() ==> contains_seq(APPLY_RESET_NETWORK@, #[trigger] apply_commands(Tweak::ResetNetwork)[j]),
{
    reveal_strlit(r#"
            $ErrorActionPreference = 'SilentlyContinue'
            ipconfig /flushdns
            netsh winsock reset
            netsh int ip reset
            Write-Output "DNS cache flushed and network stack reset."
            "#);
    reveal_strlit(r#"ipconfig /flushdns"#);
    assert(APPLY_RESET_NETWORK@.subrange(69, 87) =~= apply_commands(Tweak::ResetNetwork)[0]);
    assert(occurs_at(APPLY_RESET_NETWORK@, apply_commands(Tweak::ResetNetwork)[0], 69));
    reveal_strlit(r#"netsh winsock reset"#);
    assert(APPLY_RESET_NETWORK@.subrange(100, 119) =~= apply_commands(Tweak::ResetNetwork)[1]);
    assert(occurs_at(APPLY_RESET_NETWORK@, apply_commands(Tweak::ResetNetwork)[1], 100));
    reveal_strlit(r#"netsh int ip reset"#);
    assert(APPLY_RESET_NETWORK@.subrange(132, 150) =~= apply_commands(Tweak::ResetNetwork)[2]);
    assert(occurs_at(APPLY_RESET_NETWORK@, apply_commands(Tweak::ResetNetwork)[2], 132));
    reveal_strlit(r#"Write-Output "DNS cache flushed and network stack reset.""#);
    assert(APPLY_RESET_NETWORK@.subrange(163, 220) =~= apply_commands(Tweak::ResetNetwork)[3]);
    assert(occurs_at(APPLY_RESET_NETWORK@, apply_commands(Tweak::ResetNetwork)[3], 163));
    assert forall|j: int| 0 <= j < apply_commands(Tweak::ResetNetwork).len() implies contains_seq(APPLY_RESET_NETWORK@, #[trigger] apply_commands(Tweak::ResetNetwork)[j]) by {
        if j == 0 {
            assert(occurs_at(APPLY_RESET_NETWORK@, apply_commands(Tweak::ResetNetwork)[0], 69));
        } else if j == 1 {
            assert(occurs_at(APPLY_RESET_NETWORK@, apply_commands(Tweak::ResetNetwork)[1], 100));
        } else if j == 2 {
            assert(occurs_at(APPLY_RESET_NETWORK@, apply_commands(Tweak::ResetNetwork)[2], 132));
        } else if j == 3 {
            assert(occurs_at(APPLY_RESET_NETWORK@, apply_commands(Tweak::ResetNetwork)[3], 163));
        }
    }
}

proof fn lemma_apply_disable_cortana()
    ensures
        forall|j: int| 0 <= j < apply_commands(Tweak::DisableCortana).len() ==> contains_seq(APPLY_DISABLE_CORTANA@, #[trigger] apply_commands(Tweak::DisableCortana)[j]),
{
    reveal_strlit(r#"
            $ErrorActionPreference = 'SilentlyContinue'
            New-Item -Path "HKLM:\SOFTWARE\Policies\Microsoft\Windows" -Name "Windows Search" -Force | Out-Null
            Set-ItemProperty -Path "HKLM:\SOFTWARE\Policies\Microsoft\Windows\Windows Search" -Name "AllowCortana" -Value 0
            Set-ItemProperty -Path "HKCU:\Software\Microsoft\Windows\CurrentVersion\Search" -Name "BingSearchEnabled" -Value 0
            Set-ItemProperty -Path "HKCU:\Software\Microsoft\Windows\CurrentVersion\Search" -Name "CortanaConsent" -Value 0
            Write-Output "Cortana and Bing web search in Start menu disabled."
            "#);
    reveal_strlit(r#"New-Item -Path "HKLM:\SOFTWARE\Policies\Microsoft\Windows" -Name "Windows Search" -Force | Out-Null"#);
    assert(APPLY_DISABLE_CORTANA@.subrange(69, 168) =~= apply_commands(Tweak::DisableCortana)[0]);
    assert(occurs_at(APPLY_DISABLE_CORTANA@, apply_commands(Tweak::DisableCortana)[0], 69));
    reveal_strlit(r#"Set-ItemProperty -Path "HKLM:\SOFTWARE\Policies\Microsoft\Windows\Windows Search" -Name "AllowCortana" -Value 0"#);
    assert(APPLY_DISABLE_CORTANA@.subrange(181, 292) =~= apply_commands(Tweak::DisableCortana)[1]);
    assert(occurs_at(APPLY_DISABLE_CORTANA@, apply_commands(Tweak::DisableCortana)[1], 181));
    reveal_strlit(r#"Set-ItemProperty -Path "HKCU:\Software\Microsoft\Windows\CurrentVersion\Search" -Name "BingSearchEnabled" -Value 0"#);
    assert(APPLY_DISABLE_CORTANA@.subrange(305, 419) =~= apply_commands(Tweak::DisableCortana)[2]);
    assert(occurs_at(APPLY_DISABLE_CORTANA@, apply_commands(Tweak::DisableCortana)[2], 305));
    reveal_strlit(r#"Set-ItemProperty -Path "HKCU:\Software\Microsoft\Windows\CurrentVersion\Search" -Name "CortanaConsent" -Value 0"#);
    assert(APPLY_DISABLE_CORTANA@.subrange(432, 543) =~= apply_commands(Tweak::DisableCortana)[3]);
    assert(occurs_at(APPLY_DISABLE_CORTANA@, apply_commands(Tweak::DisableCortana)[3], 432));
    reveal_strlit(r#"Write-Output "Cortana and Bing web search in Start menu disabled.""#);
    assert(APPLY_DISABLE_CORTANA@.subrange(556, 622) =~= apply_commands(Tweak::DisableCortana)[4]);
    assert(occurs_at(APPLY_DISABLE_CORTANA@, apply_commands(Tweak::DisableCortana)[4], 556));
    assert forall|j: int| 0 <= j < apply_commands(Tweak::DisableCortana).len() implies contains_seq(APPLY_DISABLE_CORTANA@, #[trigger] apply_commands(Tweak::DisableCortana)[j]) by {
        if j == 0 {
            assert(occurs_at(APPLY_DISABLE_CORTANA@, apply_commands(Tweak::DisableCortana)[0], 69));
        } else if j == 1 {
            assert(occurs_at(APPLY_DISABLE_CORTANA@, apply_commands(Tweak::DisableCortana)[1], 181));
        } else if j == 2 {
            assert(occurs_at(APPLY_DISABLE_CORTANA@, apply_commands(Tweak::DisableCortana)[2], 305));
        } else if j == 3 {
            assert(occurs_at(APPLY_DISABLE_CORTANA@, apply_commands(Tweak::DisableCortana)[3], 432));
        } else if j == 4 {
            assert(occurs_at(APPLY_DISABLE_CORTANA@, apply_commands(Tweak::DisableCortana)[4], 556));
        }
    }
}

proof fn lemma_apply_disable_game_dvr()
    ensures
        forall|j: int| 0 <= j < apply_commands(Tweak::DisableGameDVR).len() ==> contains_seq(APPLY_DISABLE_GAME_DVR@, #[trigger] apply_commands(Tweak::DisableGameDVR)[j]),
{
    reveal_strlit(r#"
            $ErrorActionPreference = 'SilentlyContinue'
            Set-ItemProperty -Path "HKCU:\System\GameConfigStore" -Name "GameDVR_Enabled" -Value 0
            New-Item -Path "HKLM:\SOFTWARE\Policies\Microsoft\Windows" -Name "GameDVR" -Force | Out-Null
            Set-ItemProperty -Path "HKLM:\SOFTWARE\Policies\Microsoft\Windows\GameDVR" -Name "AllowGameDVR" -Value 0
            Write-Output "Xbox Game DVR and background recording disabled."
            "#);
    reveal_strlit(r#"Set-ItemProperty -Path "HKCU:\System\GameConfigStore" -Name "GameDVR_Enabled" -Value 0"#);
    assert(APPLY_DISABLE_GAME_DVR@.subrange(69, 155) =~= apply_commands(Tweak::DisableGameDVR)[0]);
    assert(occurs_at(APPLY_DISABLE_GAME_DVR@, apply_commands(Tweak::DisableGameDVR)[0], 69));
    reveal_strlit(r#"New-Item -Path "HKLM:\SOFTWARE\Policies\Microsoft\Windows" -Name "GameDVR" -Force | Out-Null"#);
    assert(APPLY_DISABLE_GAME_DVR@.subrange(168, 260) =~= apply_commands(Tweak::DisableGameDVR)[1]);
    assert(occurs_at(APPLY_DISABLE_GAME_DVR@, apply_commands(Tweak::DisableGameDVR)[1], 168));
    reveal_strlit(r#"Set-ItemProperty -Path "HKLM:\SOFTWARE\Policies\Microsoft\Windows\GameDVR" -Name "AllowGameDVR" -Value 0"#);
    assert(APPLY_DISABLE_GAME_DVR@.subrange(273, 377) =~= apply_commands(Tweak::DisableGameDVR)[2]);
    assert(occurs_at(APPLY_DISABLE_GAME_DVR@, apply_commands(Tweak::DisableGameDVR)[2], 273));
    reveal_strlit(r#"Write-Output "Xbox Game DVR and background recording disabled.""#);
    assert(APPLY_DISABLE_GAME_DVR@.subrange(390, 453) =~= apply_commands(Tweak::DisableGameDVR)[3]);
    assert(occurs_at(APPLY_DISABLE_GAME_DVR@, apply_commands(Tweak::DisableGameDVR)[3], 390));
    assert forall|j: int| 0 <= j < apply_commands(Tweak::DisableGameDVR).len() implies contains_seq(APPLY_DISABLE_GAME_DVR@, #[trigger] apply_commands(Tweak::DisableGameDVR)[j]) by {
        if j == 0 {
            assert(occurs_at(APPLY_DISABLE_GAME_DVR@, apply_commands(Tweak::DisableGameDVR)[0], 69));
        } else if j == 1 {
            assert(occurs_at(APPLY_DISABLE_GAME_DVR@, apply_commands(Tweak::DisableGameDVR)[1], 168));
        } else if j == 2 {
            assert(occurs_at(APPLY_DISABLE_GAME_DVR@, apply_commands(Tweak::DisableGameDVR)[2], 273));
        } else if j == 3 {
            assert(occurs_at(APPLY_DISABLE_GAME_DVR@, apply_commands(Tweak::DisableGameDVR)[3], 390));
        }
    }
}

proof fn lemma_apply_cloudflare_dns()
    ensures
        forall|j: int| 0 <= j < apply_commands(Tweak::CloudflareDns).len() ==> contains_seq(APPLY_CLOUDFLARE_DNS@, #[trigger] apply_commands(Tweak::CloudflareDns)[j]),
{
    reveal_strlit(r#"
            $ErrorActionPreference = 'SilentlyContinue'
            $adapters = Get-NetAdapter | Where-Object {$_.Status -eq 'Up'}
            foreach ($adapter in $adapters) {
                Set-DnsClientServerAddress -InterfaceIndex $adapter.InterfaceIndex -ServerAddresses ("1.1.1.1", "1.0.0.1")
            }
            Write-Output "DNS servers updated to Cloudflare (1.1.1.1)."
            "#);
    reveal_strlit(r#"$adapters = Get-NetAdapter | Where-Object {$_.Status -eq 'Up'}"#);
    assert(APPLY_CLOUDFLARE_DNS@.subrange(69, 131) =~= apply_commands(Tweak::CloudflareDns)[0]);
    assert(occurs_at(APPLY_CLOUDFLARE_DNS@, apply_commands(Tweak::CloudflareDns)[0], 69));
    reveal_strlit(r#"foreach ($adapter in $adapters) {"#);
    assert(APPLY_CLOUDFLARE_DNS@.subrange(144, 177) =~= apply_commands(Tweak::CloudflareDns)[1]);
    assert(occurs_at(APPLY_CLOUDFLARE_DNS@, apply_commands(Tweak::CloudflareDns)[1], 144));
    reveal_strlit(r#"Set-DnsClientServerAddress -InterfaceIndex $adapter.InterfaceIndex -ServerAddresses ("1.1.1.1", "1.0.0.1")"#);
    assert(APPLY_CLOUDFLARE_DNS@.subrange(194, 300) =~= apply_commands(Tweak::CloudflareDns)[2]);
    assert(occurs_at(APPLY_CLOUDFLARE_DNS@, apply_commands(Tweak::CloudflareDns)[2], 194));
    reveal_strlit(r#"Write-Output "DNS servers updated to Cloudflare (1.1.1.1).""#);
    assert(APPLY_CLOUDFLARE_DNS@.subrange(327, 386) =~= apply_commands(Tweak::CloudflareDns)[3]);
    assert(occurs_at(APPLY_CLOUDFLARE_DNS@, apply_commands(Tweak::CloudflareDns)[3], 327));
    assert forall|j: int| 0 <= j < apply_commands(Tweak::CloudflareDns).len() implies contains_seq(APPLY_CLOUDFLARE_DNS@, #[trigger] apply_commands(Tweak::CloudflareDns)[j]) by {
        if j == 0 {
            assert(occurs_at(APPLY_CLOUDFLARE_DNS@, apply_commands(Tweak::CloudflareDns)[0], 69));
        } else if j == 1 {
            assert(occurs_at(APPLY_CLOUDFLARE_DNS@, apply_commands(Tweak::CloudflareDns)[1], 144));
        } else if j == 2 {
            assert(occurs_at(APPLY_CLOUDFLARE_DNS@, apply_commands(Tweak::CloudflareDns)[2], 194));
        } else if j == 3 {
            assert(occurs_at(APPLY_CLOUDFLARE_DNS@, apply_commands(Tweak::CloudflareDns)[3], 327));
        }
    }
}

proof fn lemma_apply_disable_indexing()
    ensures
        forall|j: int| 0 <= j < apply_commands(Tweak::DisableIndexing).len() ==> contains_seq(APPLY_DISABLE_INDEXING@, #[trigger] apply_commands(Tweak::DisableIndexing)[j]),
{
    reveal_strlit(r#"
            $ErrorActionPreference = 'SilentlyContinue'
            Stop-Service -Name "WSearch" -Force
            Set-Service -Name "WSearch" -StartupType Disabled
            Write-Output "Windows Search Indexing service disabled and stopped."
            "#);
    reveal_strlit(r#"Stop-Service -Name "WSearch" -Force"#);
    assert(APPLY_DISABLE_INDEXING@.subrange(69, 104) =~= apply_commands(Tweak::DisableIndexing)[0]);
    assert(occurs_at(APPLY_DISABLE_INDEXING@, apply_commands(Tweak::DisableIndexing)[0], 69));
    reveal_strlit(r#"Set-Service -Name "WSearch" -StartupType Disabled"#);
    assert(APPLY_DISABLE_INDEXING@.subrange(117, 166) =~= apply_commands(Tweak::DisableIndexing)[1]);
    assert(occurs_at(APPLY_DISABLE_INDEXING@, apply_commands(Tweak::DisableIndexing)[1], 117));
    reveal_strlit(r#"Write-Output "Windows Search Indexing service disabled and stopped.""#);
    assert(APPLY_DISABLE_INDEXING@.subrange(179, 247) =~= apply_commands(Tweak::DisableIndexing)[2]);
    assert(occurs_at(APPLY_DISABLE_INDEXING@, apply_commands(Tweak::DisableIndexing)[2], 179));
    assert forall|j: int| 0 <= j < apply_commands(Tweak::DisableIndexing).len() implies contains_seq(APPLY_DISABLE_INDEXING@, #[trigger] apply_commands(Tweak::DisableIndexing)[j]) by {
        if j == 0 {
            assert(occurs_at(APPLY_DISABLE_INDEXING@, apply_commands(Tweak::DisableIndexing)[0], 69));
        } else if j == 1 {
            assert(occurs_at(APPLY_DISABLE_INDEXING@, apply_commands(Tweak::DisableIndexing)[1], 117));
        } else if j == 2 {
            assert(occurs_at(APPLY_DISABLE_INDEXING@, apply_commands(Tweak::DisableIndexing)[2], 179));
        }
    }
}

proof fn lemma_apply_god_mode()
    ensures
        forall|j: int| 0 <= j < apply_commands(Tweak::GodMode).len() ==> contains_seq(APPLY_GOD_MODE@, #[trigger] apply_commands(Tweak::GodMode)[j]),
{
    reveal_strlit(r#"
            $ErrorActionPreference = 'SilentlyContinue'
            $DesktopPath = [System.IO.Path]::Combine([Environment]::GetFolderPath('Desktop'), 'GodMode.{ED7BA470-8E54-465E-825C-99712043E01C}')
            New-Item -ItemType Directory -Path $DesktopPath -Force | Out-Null
            Write-Output "God Mode folder successfully created on your Desktop."
            "#);
    reveal_strlit(r#"$DesktopPath = [System.IO.Path]::Combine([Environment]::GetFolderPath('Desktop'), 'GodMode.{ED7BA470-8E54-465E-825C-99712043E01C}')"#);
    assert(APPLY_GOD_MODE@.subrange(69, 200) =~= apply_commands(Tweak::GodMode)[0]);
    assert(occurs_at(APPLY_GOD_MODE@, apply_commands(Tweak::GodMode)[0], 69));
    reveal_strlit(r#"New-Item -ItemType Directory -Path $DesktopPath -Force | Out-Null"#);
    assert(APPLY_GOD_MODE@.subrange(213, 278) =~= apply_commands(Tweak::GodMode)[1]);
    assert(occurs_at(APPLY_GOD_MODE@, apply_commands(Tweak::GodMode)[1], 213));
    reveal_strlit(r#"Write-Output "God Mode folder successfully created on your Desktop.""#);
    assert(APPLY_GOD_MODE@.subrange(291, 359) =~= apply_commands(Tweak::GodMode)[2]);
    assert(occurs_at(APPLY_GOD_MODE@, apply_commands(Tweak::GodMode)[2], 291));
    assert forall|j: int| 0 <= j < apply_commands(Tweak::GodMode).len() implies contains_seq(APPLY_GOD_MODE@, #[trigger] apply_commands(Tweak::GodMode)[j]) by {
        if j == 0 {
            assert(occurs_at(APPLY_GOD_MODE@, apply_commands(Tweak::GodMode)[0], 69));
        } else if j == 1 {
            assert(occurs_at(APPLY_GOD_MODE@, apply_commands(Tweak::GodMode)[1], 213));
        } else if j == 2 {
            assert(occurs_at(APPLY_GOD_MODE@, apply_commands(Tweak::GodMode)[2], 291));
        }
    }
}

proof fn lemma_apply_flush_dns()
    ensures
        forall|j: int| 0 <= j < apply_commands(Tweak::FlushDNS).len() ==> contains_seq(APPLY_FLUSH_DNS@, #[trigger] apply_commands(Tweak::FlushDNS)[j]),
{
    reveal_strlit(r#"
            $ErrorActionPreference = 'SilentlyContinue'
            $DesktopPath = [System.IO.Path]::Combine([Environment]::GetFolderPath('Desktop'), "Flush DNS.bat")
            "@echo off`r`nipconfig /flushdns`r`necho DNS Cache Flushed!`r`npause" | Out-File -FilePath $DesktopPath -Encoding ascii -Force
            Write-Output "Flush DNS batch shortcut created on your Desktop."
            "#);
    reveal_strlit(r#"$DesktopPath = [System.IO.Path]::Combine([Environment]::GetFolderPath('Desktop'), "Flush DNS.bat")"#);
    assert(APPLY_FLUSH_DNS@.subrange(69, 167) =~= apply_commands(Tweak::FlushDNS)[0]);
    assert(occurs_at(APPLY_FLUSH_DNS@, apply_commands(Tweak::FlushDNS)[0], 69));
    reveal_strlit(r#""@echo off`r`nipconfig /flushdns`r`necho DNS Cache Flushed!`r`npause" | Out-File -FilePath $DesktopPath -Encoding ascii -Force"#);
    assert(APPLY_FLUSH_DNS@.subrange(180, 306) =~= apply_commands(Tweak::FlushDNS)[1]);
    assert(occurs_at(APPLY_FLUSH_DNS@, apply_commands(Tweak::FlushDNS)[1], 180));
    reveal_strlit(r#"Write-Output "Flush DNS batch shortcut created on your Desktop.""#);
    assert(APPLY_FLUSH_DNS@.subrange(319, 383) =~= apply_commands(Tweak::FlushDNS)[2]);
    assert(occurs_at(APPLY_FLUSH_DNS@, apply_commands(Tweak::FlushDNS)[2], 319));
    assert forall|j: int| 0 <= j < apply_commands(Tweak::FlushDNS).len() implies contains_seq(APPLY_FLUSH_DNS@, #[trigger] apply_commands(Tweak::FlushDNS)[j]) by {
        if j == 0 {
            assert(occurs_at(APPLY_FLUSH_DNS@, apply_commands(Tweak::FlushDNS)[0], 69));
        } else if j == 1 {
            assert(occurs_at(APPLY_FLUSH_DNS@, apply_commands(Tweak::FlushDNS)[1], 180));
        } else if j == 2 {
            assert(occurs_at(APPLY_FLUSH_DNS@, apply_commands(Tweak::FlushDNS)[2], 319));
        }
    }
}

proof fn lemma_apply_schedule_cleanup()
    ensures
        forall|j: int| 0 <= j < apply_commands(Tweak::ScheduleCleanup).len() ==> contains_seq(APPLY_SCHEDULE_CLEANUP@, #[trigger] apply_commands(Tweak::ScheduleCleanup)[j]),
{
    reveal_strlit(r#"
            $ErrorActionPreference = 'SilentlyContinue'
            $Action = New-ScheduledTaskAction -Execute 'PowerShell.exe' -Argument '-NoProfile -WindowStyle Hidden -Command "Remove-Item -Path \"$env:TEMP\*\" -Recurse -Force -ErrorAction SilentlyContinue; Remove-Item -Path \"C:\Windows\Temp\*\" -Recurse -Force -ErrorAction SilentlyContinue; Clear-DnsClientCache -ErrorAction SilentlyContinue"'
            $Trigger = New-ScheduledTaskTrigger -Daily -At '3:00 AM'
            $Settings = New-ScheduledTaskSettingsSet -AllowStartIfOnBatteries -DontStopIfGoingOnBatteries -StartWhenAvailable
            Register-ScheduledTask -TaskName "WinForgeDailyCleanup" -Action $Action -Trigger $Trigger -Settings $Settings -Description "Daily background temp files cleanup and DNS cache flush created by WinForge." -Force | Out-Null
            Write-Output "Successfully scheduled daily cleanup task in Windows Task Scheduler."
            "#);
    reveal_strlit(r#"$Action = New-ScheduledTaskAction -Execute 'PowerShell.exe' -Argument '-NoProfile -WindowStyle Hidden -Command "Remove-Item -Path \"$env:TEMP\*\" -Recurse -Force -ErrorAction SilentlyContinue; Remove-Item -Path \"C:\Windows\Temp\*\" -Recurse -Force -ErrorAction SilentlyContinue; Clear-DnsClientCache -ErrorAction SilentlyContinue"'"#);
    assert(APPLY_SCHEDULE_CLEANUP@.subrange(69, 401) =~= apply_commands(Tweak::ScheduleCleanup)[0]);
    assert(occurs_at(APPLY_SCHEDULE_CLEANUP@, apply_commands(Tweak::ScheduleCleanup)[0], 69));
    reveal_strlit(r#"$Trigger = New-ScheduledTaskTrigger -Daily -At '3:00 AM'"#);
    assert(APPLY_SCHEDULE_CLEANUP@.subrange(414, 470) =~= apply_commands(Tweak::ScheduleCleanup)[1]);
    assert(occurs_at(APPLY_SCHEDULE_CLEANUP@, apply_commands(Tweak::ScheduleCleanup)[1], 414));
    reveal_strlit(r#"$Settings = New-ScheduledTaskSettingsSet -AllowStartIfOnBatteries -DontStopIfGoingOnBatteries -StartWhenAvailable"#);
    assert(APPLY_SCHEDULE_CLEANUP@.subrange(483, 596) =~= apply_commands(Tweak::ScheduleCleanup)[2]);
    assert(occurs_at(APPLY_SCHEDULE_CLEANUP@, apply_commands(Tweak::ScheduleCleanup)[2], 483));
    reveal_strlit(r#"Register-ScheduledTask -TaskName "WinForgeDailyCleanup" -Action $Action -Trigger $Trigger -Settings $Settings -Description "Daily background temp files cleanup and DNS cache flush created by WinForge." -Force | Out-Null"#);
    assert(APPLY_SCHEDULE_CLEANUP@.subrange(609, 828) =~= apply_commands(Tweak::ScheduleCleanup)[3]);
    assert(occurs_at(APPLY_SCHEDULE_CLEANUP@, apply_commands(Tweak::ScheduleCleanup)[3], 609));
    reveal_strlit(r#"Write-Output "Successfully scheduled daily cleanup task in Windows Task Scheduler.""#);
    assert(APPLY_SCHEDULE_CLEANUP@.subrange(841, 924) =~= apply_commands(Tweak::ScheduleCleanup)[4]);
    assert(occurs_at(APPLY_SCHEDULE_CLEANUP@, apply_commands(Tweak::ScheduleCleanup)[4], 841));
    assert forall|j: int| 0 <= j < apply_commands(Tweak::ScheduleCleanup).len() implies contains_seq(APPLY_SCHEDULE_CLEANUP@, #[trigger] apply_commands(Tweak::ScheduleCleanup)[j]) by {
        if j == 0 {
            assert(occurs_at(APPLY_SCHEDULE_CLEANUP@, apply_commands(Tweak::ScheduleCleanup)[0], 69));
        } else if j == 1 {
            assert(occurs_at(APPLY_SCHEDULE_CLEANUP@, apply_commands(Tweak::ScheduleCleanup)[1], 414));
        } else if j == 2 {
            assert(occurs_at(APPLY_SCHEDULE_CLEANUP@, apply_commands(Tweak::ScheduleCleanup)[2], 483));
        } else if j == 3 {
            assert(occurs_at(APPLY_SCHEDULE_CLEANUP@, apply_commands(Tweak::ScheduleCleanup)[3], 609));
        } else if j == 4 {
            assert(occurs_at(APPLY_SCHEDULE_CLEANUP@, apply_commands(Tweak::ScheduleCleanup)[4], 841));
        }
    }
}

proof fn lemma_revert_debloat()
    ensures
        forall|j: int| 0 <= j < revert_commands(Tweak::Debloat).len() ==> contains_seq(REVERT_DEBLOAT@, #[trigger] revert_commands(Tweak::Debloat)[j]),
{
    reveal_strlit(r#"
            $ErrorActionPreference = 'SilentlyContinue'
            $apps = @(
                "Microsoft.3DBuilder", "Microsoft.BingWeather", "Microsoft.GetHelp", 
                "Microsoft.Getstarted", "Microsoft.Messaging", "Microsoft.MicrosoftSolitaireCollection", 
                "Microsoft.MixedReality.Portal", "Microsoft.OneConnect", "Microsoft.People", 
                "Microsoft.Print3D", "Microsoft.SkypeApp", "Microsoft.Wallet", "Microsoft.XboxApp", 
                "Microsoft.XboxGameOverlay", "Microsoft.XboxGamingOverlay", "Microsoft.XboxIdentityProvider", 
                "Microsoft.YourPhone", "Microsoft.ZuneMusic", "Microsoft.ZuneVideo"
            )
            foreach ($app in $apps) {
                $manifest = (Get-AppxPackage -AllUsers -Name $app).InstallLocation + "\AppXManifest.xml"
                if (Test-Path $manifest) {
                    Add-AppxPackage -DisableDevelopmentMode -Register $manifest
                }
            }
            Write-Output "Restored package manifests for debloated apps."
            "#);
    reveal_strlit(r#"$apps = @("#);
    assert(REVERT_DEBLOAT@.subrange(69, 79) =~= revert_commands(Tweak::Debloat)[0]);
    assert(occurs_at(REVERT_DEBLOAT@, revert_commands(Tweak::Debloat)[0], 69));
    reveal_strlit(r#""Microsoft.3DBuilder", "Microsoft.BingWeather", "Microsoft.GetHelp","#);
    assert(REVERT_DEBLOAT@.subrange(96, 164) =~= revert_commands(Tweak::Debloat)[1]);
    assert(occurs_at(REVERT_DEBLOAT@, revert_commands(Tweak::Debloat)[1], 96));
    reveal_strlit(r#""Microsoft.Getstarted", "Microsoft.Messaging", "Microsoft.MicrosoftSolitaireCollection","#);
    assert(REVERT_DEBLOAT@.subrange(182, 270) =~= revert_commands(Tweak::Debloat)[2]);
    assert(occurs_at(REVERT_DEBLOAT@, revert_commands(Tweak::Debloat)[2], 182));
    reveal_strlit(r#""Microsoft.MixedReality.Portal", "Microsoft.OneConnect", "Microsoft.People","#);
    assert(REVERT_DEBLOAT@.subrange(288, 364) =~= revert_commands(Tweak::Debloat)[3]);
    assert(occurs_at(REVERT_DEBLOAT@, revert_commands(Tweak::Debloat)[3], 288));
    reveal_strlit(r#""Microsoft.Print3D", "Microsoft.SkypeApp", "Microsoft.Wallet", "Microsoft.XboxApp","#);
    assert(REVERT_DEBLOAT@.subrange(382, 465) =~= revert_commands(Tweak::Debloat)[4]);
    assert(occurs_at(REVERT_DEBLOAT@, revert_commands(Tweak::Debloat)[4], 382));
    reveal_strlit(r#""Microsoft.XboxGameOverlay", "Microsoft.XboxGamingOverlay", "Microsoft.XboxIdentityProvider","#);
    assert(REVERT_DEBLOAT@.subrange(483, 576) =~= revert_commands(Tweak::Debloat)[5]);
    assert(occurs_at(REVERT_DEBLOAT@, revert_commands(Tweak::Debloat)[5], 483));
    reveal_strlit(r#""Microsoft.YourPhone", "Microsoft.ZuneMusic", "Microsoft.ZuneVideo""#);
    assert(REVERT_DEBLOAT@.subrange(594, 661) =~= revert_commands(Tweak::Debloat)[6]);
    assert(occurs_at(REVERT_DEBLOAT@, revert_commands(Tweak::Debloat)[6], 594));
    reveal_strlit(r#"foreach ($app in $apps) {"#);
    assert(REVERT_DEBLOAT@.subrange(688, 713) =~= revert_commands(Tweak::Debloat)[7]);
    assert(occurs_at(REVERT_DEBLOAT@, revert_commands(Tweak::Debloat)[7], 688));
    reveal_strlit(r#"$manifest = (Get-AppxPackage -AllUsers -Name $app).InstallLocation + "\AppXManifest.xml""#);
    assert(REVERT_DEBLOAT@.subrange(730, 818) =~= revert_commands(Tweak::Debloat)[8]);
    assert(occurs_at(REVERT_DEBLOAT@, revert_commands(Tweak::Debloat)[8], 730));
    reveal_strlit(r#"if (Test-Path $manifest) {"#);
    assert(REVERT_DEBLOAT@.subrange(835, 861) =~= revert_commands(Tweak::Debloat)[9]);
    assert(occurs_at(REVERT_DEBLOAT@, revert_commands(Tweak::Debloat)[9], 835));
    reveal_strlit(r#"Add-AppxPackage -DisableDevelopmentMode -Register $manifest"#);
    assert(REVERT_DEBLOAT@.subrange(882, 941) =~= revert_commands(Tweak::Debloat)[10]);
    assert(occurs_at(REVERT_DEBLOAT@, revert_commands(Tweak::Debloat)[10], 882));
    reveal_strlit(r#"Write-Output "Restored package manifests for debloated apps.""#);
    assert(REVERT_DEBLOAT@.subrange(986, 1047) =~= revert_commands(Tweak::Debloat)[11]);
    assert(occurs_at(REVERT_DEBLOAT@, revert_commands(Tweak::Debloat)[11], 986));
    assert forall|j: int| 0 <= j < revert_commands(Tweak::Debloat).len() implies contains_seq(REVERT_DEBLOAT@, #[trigger] revert_commands(Tweak::Debloat)[j]) by {
        if j == 0 {
            assert(occurs_at(REVERT_DEBLOAT@, revert_commands(Tweak::Debloat)[0], 69));
        } else if j == 1 {
            assert(occurs_at(REVERT_DEBLOAT@, revert_commands(Tweak::Debloat)[1], 96));
        } else if j == 2 {
            assert(occurs_at(REVERT_DEBLOAT@, revert_commands(Tweak::Debloat)[2], 182));
        } else if j == 3 {
            assert(occurs_at(REVERT_DEBLOAT@, revert_commands(Tweak::Debloat)[3], 288));
        } else if j == 4 {
            assert(occurs_at(REVERT_DEBLOAT@, revert_commands(Tweak::Debloat)[4], 382));
        } else if j == 5 {
            assert(occurs_at(REVERT_DEBLOAT@, revert_commands(Tweak::Debloat)[5], 483));
        } else if j == 6 {
            assert(occurs_at(REVERT_DEBLOAT@, revert_commands(Tweak::Debloat)[6], 594));
        } else if j == 7 {
            assert(occurs_at(REVERT_DEBLOAT@, revert_commands(Tweak::Debloat)[7], 688));
        } else if j == 8 {
            assert(occurs_at(REVERT_DEBLOAT@, revert_commands(Tweak::Debloat)[8], 730));
        } else if j == 9 {
            assert(occurs_at(REVERT_DEBLOAT@, revert_commands(Tweak::Debloat)[9], 835));
        } else if j == 10 {
            assert(occurs_at(REVERT_DEBLOAT@, revert_commands(Tweak::Debloat)[10], 882));
        } else if j == 11 {
            assert(occurs_at(REVERT_DEBLOAT@, revert_commands(Tweak::Debloat)[11], 986));
        }
    }
}

proof fn lemma_revert_high_perf()
    ensures
        forall|j: int| 0 <= j < revert_commands(Tweak::HighPerf).len() ==> contains_seq(REVERT_HIGH_PERF@, #[trigger] revert_commands(Tweak::HighPerf)[j]),
{
    reveal_strlit(r#"
            $ErrorActionPreference = 'SilentlyContinue'
            powercfg /setactive 381b4222-f694-41f0-9685-ff5bb260df2e
            Write-Output "Balanced power plan activated."
            "#);
    reveal_strlit(r#"powercfg /setactive 381b4222-f694-41f0-9685-ff5bb260df2e"#);
    assert(REVERT_HIGH_PERF@.subrange(69, 125) =~= revert_commands(Tweak::HighPerf)[0]);
    assert(occurs_at(REVERT_HIGH_PERF@, revert_commands(Tweak::HighPerf)[0], 69));
    reveal_strlit(r#"Write-Output "Balanced power plan activated.""#);
    assert(REVERT_HIGH_PERF@.subrange(138, 183) =~= revert_commands(Tweak::HighPerf)[1]);
    assert(occurs_at(REVERT_HIGH_PERF@, revert_commands(Tweak::HighPerf)[1], 138));
    assert forall|j: int| 0 <= j < revert_commands(Tweak::HighPerf).len() implies contains_seq(REVERT_HIGH_PERF@, #[trigger] revert_commands(Tweak::HighPerf)[j]) by {
        if j == 0 {
            assert(occurs_at(REVERT_HIGH_PERF@, revert_commands(Tweak::HighPerf)[0], 69));
        } else if j == 1 {
            assert(occurs_at(REVERT_HIGH_PERF@, revert_commands(Tweak::HighPerf)[1], 138));
        }
    }
}

proof fn lemma_revert_visual_effects()
    ensures
        forall|j: int| 0 <= j < revert_commands(Tweak::VisualEffects).len() ==> contains_seq(REVERT_VISUAL_EFFECTS@, #[trigger] revert_commands(Tweak::VisualEffects)[j]),
{
    reveal_strlit(r#"
            $ErrorActionPreference = 'SilentlyContinue'
            Set-ItemProperty -Path "HKCU:\Software\Microsoft\Windows\CurrentVersion\Explorer\VisualEffects" -Name "VisualFXSetting" -Value 0
            Set-ItemProperty -Path "HKCU:\Control Panel\Desktop" -Name "UserPreferencesMask" -Value ([byte[]](158, 30, 7, 128, 18, 0, 0, 0))
            Set-ItemProperty -Path "HKCU:\Control Panel\Desktop" -Name "MenuShowDelay" -Value "400"
            Write-Output "Visual effects restored to defaults."
            "#);
    reveal_strlit(r#"Set-ItemProperty -Path "HKCU:\Software\Microsoft\Windows\CurrentVersion\Explorer\VisualEffects" -Name "VisualFXSetting" -Value 0"#);
    assert(REVERT_VISUAL_EFFECTS@.subrange(69, 197) =~= revert_commands(Tweak::VisualEffects)[0]);
    assert(occurs_at(REVERT_VISUAL_EFFECTS@, revert_commands(Tweak::VisualEffects)[0], 69));
    reveal_strlit(r#"Set-ItemProperty -Path "HKCU:\Control Panel\Desktop" -Name "UserPreferencesMask" -Value ([byte[]](158, 30, 7, 128, 18, 0, 0, 0))"#);
    assert(REVERT_VISUAL_EFFECTS@.subrange(210, 338) =~= revert_commands(Tweak::VisualEffects)[1]);
    assert(occurs_at(REVERT_VISUAL_EFFECTS@, revert_commands(Tweak::VisualEffects)[1], 210));
    reveal_strlit(r#"Set-ItemProperty -Path "HKCU:\Control Panel\Desktop" -Name "MenuShowDelay" -Value "400""#);
    assert(REVERT_VISUAL_EFFECTS@.subrange(351, 438) =~= revert_commands(Tweak::VisualEffects)[2]);
    assert(occurs_at(REVERT_VISUAL_EFFECTS@, revert_commands(Tweak::VisualEffects)[2], 351));
    reveal_strlit(r#"Write-Output "Visual effects restored to defaults.""#);
    assert(REVERT_VISUAL_EFFECTS@.subrange(451, 502) =~= revert_commands(Tweak::VisualEffects)[3]);
    assert(occurs_at(REVERT_VISUAL_EFFECTS@, revert_commands(Tweak::VisualEffects)[3], 451));
    assert forall|j: int| 0 <= j < revert_commands(Tweak::VisualEffects).len() implies contains_seq(REVERT_VISUAL_EFFECTS@, #[trigger] revert_commands(Tweak::VisualEffects)[j]) by {
        if j == 0 {
            assert(occurs_at(REVERT_VISUAL_EFFECTS@, revert_commands(Tweak::VisualEffects)[0], 69));
        } else if j == 1 {
            assert(occurs_at(REVERT_VISUAL_EFFECTS@, revert_commands(Tweak::VisualEffects)[1], 210));
        } else if j == 2 {
            assert(occurs_at(REVERT_VISUAL_EFFECTS@, revert_commands(Tweak::VisualEffects)[2], 351));
        } else if j == 3 {
            assert(occurs_at(REVERT_VISUAL_EFFECTS@, revert_commands(Tweak::VisualEffects)[3], 451));
        }
    }
}

proof fn lemma_revert_network_tweak()
    ensures
        forall|j: int| 0 <= j < revert_commands(Tweak::NetworkTweak).len() ==> contains_seq(REVERT_NETWORK_TWEAK@, #[trigger] revert_commands(Tweak::NetworkTweak)[j]),
{
    reveal_strlit(r#"
            $ErrorActionPreference = 'SilentlyContinue'
            netsh int tcp set global autotuninglevel=normal
            netsh int tcp set global chimney=default
            netsh int tcp set global dca=disabled
            netsh int tcp set global netdma=disabled
            netsh int tcp set global ecncapability=disabled
            Write-Output "TCP Auto-Tuning and network settings restored to defaults."
            "#);
    reveal_strlit(r#"netsh int tcp set global autotuninglevel=normal"#);
    assert(REVERT_NETWORK_TWEAK@.subrange(69, 116) =~= revert_commands(Tweak::NetworkTweak)[0]);
    assert(occurs_at(REVERT_NETWORK_TWEAK@, revert_commands(Tweak::NetworkTweak)[0], 69));
    reveal_strlit(r#"netsh int tcp set global chimney=default"#);
    assert(REVERT_NETWORK_TWEAK@.subrange(129, 169) =~= revert_commands(Tweak::NetworkTweak)[1]);
    assert(occurs_at(REVERT_NETWORK_TWEAK@, revert_commands(Tweak::NetworkTweak)[1], 129));
    reveal_strlit(r#"netsh int tcp set global dca=disabled"#);
    assert(REVERT_NETWORK_TWEAK@.subrange(182, 219) =~= revert_commands(Tweak::NetworkTweak)[2]);
    assert(occurs_at(REVERT_NETWORK_TWEAK@, revert_commands(Tweak::NetworkTweak)[2], 182));
    reveal_strlit(r#"netsh int tcp set global netdma=disabled"#);
    assert(REVERT_NETWORK_TWEAK@.subrange(232, 272) =~= revert_commands(Tweak::NetworkTweak)[3]);
    assert(occurs_at(REVERT_NETWORK_TWEAK@, revert_commands(Tweak::NetworkTweak)[3], 232));
    reveal_strlit(r#"netsh int tcp set global ecncapability=disabled"#);
    assert(REVERT_NETWORK_TWEAK@.subrange(285, 332) =~= revert_commands(Tweak::NetworkTweak)[4]);
    assert(occurs_at(REVERT_NETWORK_TWEAK@, revert_commands(Tweak::NetworkTweak)[4], 285));
    reveal_strlit(r#"Write-Output "TCP Auto-Tuning and network settings restored to defaults.""#);
    assert(REVERT_NETWORK_TWEAK@.subrange(345, 418) =~= revert_commands(Tweak::NetworkTweak)[5]);
    assert(occurs_at(REVERT_NETWORK_TWEAK@, revert_commands(Tweak::NetworkTweak)[5], 345));
    assert forall|j: int| 0 <= j < revert_commands(Tweak::NetworkTweak).len() implies contains_seq(REVERT_NETWORK_TWEAK@, #[trigger] revert_commands(Tweak::NetworkTweak)[j]) by {
        if j == 0 {
            assert(occurs_at(REVERT_NETWORK_TWEAK@, revert_commands(Tweak::NetworkTweak)[0], 69));
        } else if j == 1 {
            assert(occurs_at(REVERT_NETWORK_TWEAK@, revert_commands(Tweak::NetworkTweak)[1], 129));
        } else if j == 2 {
            assert(occurs_at(REVERT_NETWORK_TWEAK@, revert_commands(Tweak::NetworkTweak)[2], 182));
        } else if j == 3 {
            assert(occurs_at(REVERT_NETWORK_TWEAK@, revert_commands(Tweak::NetworkTweak)[3], 232));
        } else if j == 4 {
            assert(occurs_at(REVERT_NETWORK_TWEAK@, revert_commands(Tweak::NetworkTweak)[4], 285));
        } else if j == 5 {
            assert(occurs_at(REVERT_NETWORK_TWEAK@, revert_commands(Tweak::NetworkTweak)[5], 345));
        }
    }
}

proof fn lemma_revert_disable_startup()
    ensures
        forall|j: int| 0 <= j < revert_commands(Tweak::DisableStartup).len() ==> contains_seq(REVERT_DISABLE_STARTUP@, #[trigger] revert_commands(Tweak::DisableStartup)[j]),
{
    reveal_strlit(r#"
            $ErrorActionPreference = 'SilentlyContinue'
            $localApp = $env:LOCALAPPDATA
            if (Test-Path "$localApp\Microsoft\OneDrive\OneDrive.exe") {
                Set-ItemProperty -Path "HKCU:\Software\Microsoft\Windows\CurrentVersion\Run" -Name "OneDrive" -Value "`"$localApp\Microsoft\OneDrive\OneDrive.exe`" /background"
            }
            Remove-ItemProperty -Path "HKCU:\Software\Microsoft\Windows\CurrentVersion\Explorer\StartupApproved\Run" -Name "com.squirrel.Teams.Teams"
            Write-Output "Startup programs re-enabled."
            "#);
    reveal_strlit(r#"$localApp = $env:LOCALAPPDATA"#);
    assert(REVERT_DISABLE_STARTUP@.subrange(69, 98) =~= revert_commands(Tweak::DisableStartup)[0]);
    assert(occurs_at(REVERT_DISABLE_STARTUP@, revert_commands(Tweak::DisableStartup)[0], 69));
    reveal_strlit(r#"if (Test-Path "$localApp\Microsoft\OneDrive\OneDrive.exe") {"#);
    assert(REVERT_DISABLE_STARTUP@.subrange(111, 171) =~= revert_commands(Tweak::DisableStartup)[1]);
    assert(occurs_at(REVERT_DISABLE_STARTUP@, revert_commands(Tweak::DisableStartup)[1], 111));
    reveal_strlit(r#"Set-ItemProperty -Path "HKCU:\Software\Microsoft\Windows\CurrentVersion\Run" -Name "OneDrive" -Value "`"$localApp\Microsoft\OneDrive\OneDrive.exe`" /background""#);
    assert(REVERT_DISABLE_STARTUP@.subrange(188, 348) =~= revert_commands(Tweak::DisableStartup)[2]);
    assert(occurs_at(REVERT_DISABLE_STARTUP@, revert_commands(Tweak::DisableStartup)[2], 188));
    reveal_strlit(r#"Remove-ItemProperty -Path "HKCU:\Software\Microsoft\Windows\CurrentVersion\Explorer\StartupApproved\Run" -Name "com.squirrel.Teams.Teams""#);
    assert(REVERT_DISABLE_STARTUP@.subrange(375, 512) =~= revert_commands(Tweak::DisableStartup)[3]);
    assert(occurs_at(REVERT_DISABLE_STARTUP@, revert_commands(Tweak::DisableStartup)[3], 375));
    reveal_strlit(r#"Write-Output "Startup programs re-enabled.""#);
    assert(REVERT_DISABLE_STARTUP@.subrange(525, 568) =~= revert_commands(Tweak::DisableStartup)[4]);
    assert(occurs_at(REVERT_DISABLE_STARTUP@, revert_commands(Tweak::DisableStartup)[4], 525));
    assert forall|j: int| 0 <= j < revert_commands(Tweak::DisableStartup).len() implies contains_seq(REVERT_DISABLE_STARTUP@, #[trigger] revert_commands(Tweak::DisableStartup)[j]) by {
        if j == 0 {
            assert(occurs_at(REVERT_DISABLE_STARTUP@, revert_commands(Tweak::DisableStartup)[0], 69));
        } else if j == 1 {
            assert(occurs_at(REVERT_DISABLE_STARTUP@, revert_commands(Tweak::DisableStartup)[1], 111));
        } else if j == 2 {
            assert(occurs_at(REVERT_DISABLE_STARTUP@, revert_commands(Tweak::DisableStartup)[2], 188));
        } else if j == 3 {
            assert(occurs_at(REVERT_DISABLE_STARTUP@, revert_commands(Tweak::DisableStartup)[3], 375));
        } else if j == 4 {
            assert(occurs_at(REVERT_DISABLE_STARTUP@, revert_commands(Tweak::DisableStartup)[4], 525));
        }
    }
}

proof fn lemma_revert_dark_mode()
    ensures
        forall|j: int| 0 <= j < revert_commands(Tweak::DarkMode).len() ==> contains_seq(REVERT_DARK_MODE@, #[trigger] revert_commands(Tweak::DarkMode)[j]),
{
    reveal_strlit(r#"
            $ErrorActionPreference = 'SilentlyContinue'
            Set-ItemProperty -Path "HKCU:\Software\Microsoft\Windows\CurrentVersion\Themes\Personalize" -Name "AppsUseLightTheme" -Value 1
            Set-ItemProperty -Name "SystemUsesLightTheme" -Path "HKCU:\Software\Microsoft\Windows\CurrentVersion\Themes\Personalize" -Value 1
            Write-Output "Light Mode re-enabled."
            "#);
    reveal_strlit(r#"Set-ItemProperty -Path "HKCU:\Software\Microsoft\Windows\CurrentVersion\Themes\Personalize" -Name "AppsUseLightTheme" -Value 1"#);
    assert(REVERT_DARK_MODE@.subrange(69, 195) =~= revert_commands(Tweak::DarkMode)[0]);
    assert(occurs_at(REVERT_DARK_MODE@, revert_commands(Tweak::DarkMode)[0], 69));
    reveal_strlit(r#"Set-ItemProperty -Name "SystemUsesLightTheme" -Path "HKCU:\Software\Microsoft\Windows\CurrentVersion\Themes\Personalize" -Value 1"#);
    assert(REVERT_DARK_MODE@.subrange(208, 337) =~= revert_commands(Tweak::DarkMode)[1]);
    assert(occurs_at(REVERT_DARK_MODE@, revert_commands(Tweak::DarkMode)[1], 208));
    reveal_strlit(r#"Write-Output "Light Mode re-enabled.""#);
    assert(REVERT_DARK_MODE@.subrange(350, 387) =~= revert_commands(Tweak::DarkMode)[2]);
    assert(occurs_at(REVERT_DARK_MODE@, revert_commands(Tweak::DarkMode)[2], 350));
    assert forall|j: int| 0 <= j < revert_commands(Tweak::DarkMode).len() implies contains_seq(REVERT_DARK_MODE@, #[trigger] revert_commands(Tweak::DarkMode)[j]) by {
        if j == 0 {
            assert(occurs_at(REVERT_DARK_MODE@, revert_commands(Tweak::DarkMode)[0], 69));
        } else if j == 1 {
            assert(occurs_at(REVERT_DARK_MODE@, revert_commands(Tweak::DarkMode)[1], 208));
        } else if j == 2 {
            assert(occurs_at(REVERT_DARK_MODE@, revert_commands(Tweak::DarkMode)[2], 350));
        }
    }
}

proof fn lemma_revert_telemetry()
    ensures
        forall|j: int| 0 <= j < revert_commands(Tweak::Telemetry).len() ==> contains_seq(REVERT_TELEMETRY@, #[trigger] revert_commands(Tweak::Telemetry)[j]),
{
    reveal_strlit(r#"
            $ErrorActionPreference = 'SilentlyContinue'
            Set-Service -Name "DiagTrack" -StartupType Automatic
            Start-Service -Name "DiagTrack"
            Remove-ItemProperty -Path "HKLM:\SOFTWARE\Policies\Microsoft\Windows\DataCollection" -Name "AllowTelemetry"
            Remove-ItemProperty -Path "HKLM:\SOFTWARE\Microsoft\Windows\CurrentVersion\Policies\DataCollection" -Name "AllowTelemetry"
            Write-Output "Telemetry services and Windows tracking re-enabled."
            "#);
    reveal_strlit(r#"Set-Service -Name "DiagTrack" -StartupType Automatic"#);
    assert(REVERT_TELEMETRY@.subrange(69, 121) =~= revert_commands(Tweak::Telemetry)[0]);
    assert(occurs_at(REVERT_TELEMETRY@, revert_commands(Tweak::Telemetry)[0], 69));
    reveal_strlit(r#"Start-Service -Name "DiagTrack""#);
    assert(REVERT_TELEMETRY@.subrange(134, 165) =~= revert_commands(Tweak::Telemetry)[1]);
    assert(occurs_at(REVERT_TELEMETRY@, revert_commands(Tweak::Telemetry)[1], 134));
    reveal_strlit(r#"Remove-ItemProperty -Path "HKLM:\SOFTWARE\Policies\Microsoft\Windows\DataCollection" -Name "AllowTelemetry""#);
    assert(REVERT_TELEMETRY@.subrange(178, 285) =~= revert_commands(Tweak::Telemetry)[2]);
    assert(occurs_at(REVERT_TELEMETRY@, revert_commands(Tweak::Telemetry)[2], 178));
    reveal_strlit(r#"Remove-ItemProperty -Path "HKLM:\SOFTWARE\Microsoft\Windows\CurrentVersion\Policies\DataCollection" -Name "AllowTelemetry""#);
    assert(REVERT_TELEMETRY@.subrange(298, 420) =~= revert_commands(Tweak::Telemetry)[3]);
    assert(occurs_at(REVERT_TELEMETRY@, revert_commands(Tweak::Telemetry)[3], 298));
    reveal_strlit(r#"Write-Output "Telemetry services and Windows tracking re-enabled.""#);
    assert(REVERT_TELEMETRY@.subrange(433, 499) =~= revert_commands(Tweak::Telemetry)[4]);
    assert(occurs_at(REVERT_TELEMETRY@, revert_commands(Tweak::Telemetry)[4], 433));
    assert forall|j: int| 0 <= j < revert_commands(Tweak::Telemetry).len() implies contains_seq(REVERT_TELEMETRY@, #[trigger] revert_commands(Tweak::Telemetry)[j]) by {
        if j == 0 {
            assert(occurs_at(REVERT_TELEMETRY@, revert_commands(Tweak::Telemetry)[0], 69));
        } else if j == 1 {
            assert(occurs_at(REVERT_TELEMETRY@, revert_commands(Tweak::Telemetry)[1], 134));
        } else if j == 2 {
            assert(occurs_at(REVERT_TELEMETRY@, revert_commands(Tweak::Telemetry)[2], 178));
        } else if j == 3 {
            assert(occurs_at(REVERT_TELEMETRY@, revert_commands(Tweak::Telemetry)[3], 298));
        } else if j == 4 {
            assert(occurs_at(REVERT_TELEMETRY@, revert_commands(Tweak::Telemetry)[4], 433));
        }
    }
}

proof fn lemma_revert_default_browser_prompt()
    ensures
        forall|j: int| 0 <= j < revert_commands(Tweak::DefaultBrowserPrompt).len() ==> contains_seq(REVERT_DEFAULT_BROWSER_PROMPT@, #[trigger] revert_commands(Tweak::DefaultBrowserPrompt)[j]),
{
    reveal_strlit(r#"
            $ErrorActionPreference = 'SilentlyContinue'
            Remove-ItemProperty -Path "HKCU:\Software\Policies\Microsoft\Edge" -Name "DefaultBrowserSettingEnabled"
            Remove-ItemProperty -Path "HKCU:\Software\Policies\Microsoft\Edge" -Name "HideFirstRunExperience"
            Write-Output "Edge default browser prompts re-enabled."
            "#);
    reveal_strlit(r#"Remove-ItemProperty -Path "HKCU:\Software\Policies\Microsoft\Edge" -Name "DefaultBrowserSettingEnabled""#);
    assert(REVERT_DEFAULT_BROWSER_PROMPT@.subrange(69, 172) =~= revert_commands(Tweak::DefaultBrowserPrompt)[0]);
    assert(occurs_at(REVERT_DEFAULT_BROWSER_PROMPT@, revert_commands(Tweak::DefaultBrowserPrompt)[0], 69));
    reveal_strlit(r#"Remove-ItemProperty -Path "HKCU:\Software\Policies\Microsoft\Edge" -Name "HideFirstRunExperience""#);
    assert(REVERT_DEFAULT_BROWSER_PROMPT@.subrange(185, 282) =~= revert_commands(Tweak::DefaultBrowserPrompt)[1]);
    assert(occurs_at(REVERT_DEFAULT_BROWSER_PROMPT@, revert_commands(Tweak::DefaultBrowserPrompt)[1], 185));
    reveal_strlit(r#"Write-Output "Edge default browser prompts re-enabled.""#);
    assert(REVERT_DEFAULT_BROWSER_PROMPT@.subrange(295, 350) =~= revert_commands(Tweak::DefaultBrowserPrompt)[2]);
    assert(occurs_at(REVERT_DEFAULT_BROWSER_PROMPT@, revert_commands(Tweak::DefaultBrowserPrompt)[2], 295));
    assert forall|j: int| 0 <= j < revert_commands(Tweak::DefaultBrowserPrompt).len() implies contains_seq(REVERT_DEFAULT_BROWSER_PROMPT@, #[trigger] revert_commands(Tweak::DefaultBrowserPrompt)[j]) by {
        if j == 0 {
            assert(occurs_at(REVERT_DEFAULT_BROWSER_PROMPT@, revert_commands(Tweak::DefaultBrowserPrompt)[0], 69));
        } else if j == 1 {
            assert(occurs_at(REVERT_DEFAULT_BROWSER_PROMPT@, revert_commands(Tweak::DefaultBrowserPrompt)[1], 185));
        } else if j == 2 {
            assert(occurs_at(REVERT_DEFAULT_BROWSER_PROMPT@, revert_commands(Tweak::DefaultBrowserPrompt)[2], 295));
        }
    }
}

proof fn lemma_revert_disable_hibernate()
    ensures
        forall|j: int| 0 <= j < revert_commands(Tweak::DisableHibernate).len() ==> contains_seq(REVERT_DISABLE_HIBERNATE@, #[trigger] revert_commands(Tweak::DisableHibernate)[j]),
{
    reveal_strlit(r#"
            $ErrorActionPreference = 'SilentlyContinue'
            powercfg.exe /hibernate on
            Write-Output "Hibernation re-enabled."
            "#);
    reveal_strlit(r#"powercfg.exe /hibernate on"#);
    assert(REVERT_DISABLE_HIBERNATE@.subrange(69, 95) =~= revert_commands(Tweak::DisableHibernate)[0]);
    assert(occurs_at(REVERT_DISABLE_HIBERNATE@, revert_commands(Tweak::DisableHibernate)[0], 69));
    reveal_strlit(r#"Write-Output "Hibernation re-enabled.""#);
    assert(REVERT_DISABLE_HIBERNATE@.subrange(108, 146) =~= revert_commands(Tweak::DisableHibernate)[1]);
    assert(occurs_at(REVERT_DISABLE_HIBERNATE@, revert_commands(Tweak::DisableHibernate)[1], 108));
    assert forall|j: int| 0 <= j < revert_commands(Tweak::DisableHibernate).len() implies contains_seq(REVERT_DISABLE_HIBERNATE@, #[trigger] revert_commands(Tweak::DisableHibernate)[j]) by {
        if j == 0 {
            assert(occurs_at(REVERT_DISABLE_HIBERNATE@, revert_commands(Tweak::DisableHibernate)[0], 69));
        } else if j == 1 {
            assert(occurs_at(REVERT_DISABLE_HIBERNATE@, revert_commands(Tweak::DisableHibernate)[1], 108));
        }
    }
}

proof fn lemma_revert_disable_cortana()
    ensures
        forall|j: int| 0 <= j < revert_commands(Tweak::DisableCortana).len() ==> contains_seq(REVERT_DISABLE_CORTANA@, #[trigger] revert_commands(Tweak::DisableCortana)[j]),
{
    reveal_strlit(r#"
            $ErrorActionPreference = 'SilentlyContinue'
            Remove-ItemProperty -Path "HKLM:\SOFTWARE\Policies\Microsoft\Windows\Windows Search" -Name "AllowCortana"
            Remove-ItemProperty -Path "HKCU:\Software\Microsoft\Windows\CurrentVersion\Search" -Name "BingSearchEnabled"
            Remove-ItemProperty -Path "HKCU:\Software\Microsoft\Windows\CurrentVersion\Search" -Name "CortanaConsent"
            Write-Output "Cortana and Bing web search re-enabled."
            "#);
    reveal_strlit(r#"Remove-ItemProperty -Path "HKLM:\SOFTWARE\Policies\Microsoft\Windows\Windows Search" -Name "AllowCortana""#);
    assert(REVERT_DISABLE_CORTANA@.subrange(69, 174) =~= revert_commands(Tweak::DisableCortana)[0]);
    assert(occurs_at(REVERT_DISABLE_CORTANA@, revert_commands(Tweak::DisableCortana)[0], 69));
    reveal_strlit(r#"Remove-ItemProperty -Path "HKCU:\Software\Microsoft\Windows\CurrentVersion\Search" -Name "BingSearchEnabled""#);
    assert(REVERT_DISABLE_CORTANA@.subrange(187, 295) =~= revert_commands(Tweak::DisableCortana)[1]);
    assert(occurs_at(REVERT_DISABLE_CORTANA@, revert_commands(Tweak::DisableCortana)[1], 187));
    reveal_strlit(r#"Remove-ItemProperty -Path "HKCU:\Software\Microsoft\Windows\CurrentVersion\Search" -Name "CortanaConsent""#);
    assert(REVERT_DISABLE_CORTANA@.subrange(308, 413) =~= revert_commands(Tweak::DisableCortana)[2]);
    assert(occurs_at(REVERT_DISABLE_CORTANA@, revert_commands(Tweak::DisableCortana)[2], 308));
    reveal_strlit(r#"Write-Output "Cortana and Bing web search re-enabled.""#);
    assert(REVERT_DISABLE_CORTANA@.subrange(426, 480) =~= revert_commands(Tweak::DisableCortana)[3]);
    assert(occurs_at(REVERT_DISABLE_CORTANA@, revert_commands(Tweak::DisableCortana)[3], 426));
    assert forall|j: int| 0 <= j < revert_commands(Tweak::DisableCortana).len() implies contains_seq(REVERT_DISABLE_CORTANA@, #[trigger] revert_commands(Tweak::DisableCortana)[j]) by {
        if j == 0 {
            assert(occurs_at(REVERT_DISABLE_CORTANA@, revert_commands(Tweak::DisableCortana)[0], 69));
        } else if j == 1 {
            assert(occurs_at(REVERT_DISABLE_CORTANA@, revert_commands(Tweak::DisableCortana)[1], 187));
        } else if j == 2 {
            assert(occurs_at(REVERT_DISABLE_CORTANA@, revert_commands(Tweak::DisableCortana)[2], 308));
        } else if j == 3 {
            assert(occurs_at(REVERT_DISABLE_CORTANA@, revert_commands(Tweak::DisableCortana)[3], 426));
        }
    }
}

proof fn lemma_revert_disable_game_dvr()
    ensures
        forall|j: int| 0 <= j < revert_commands(Tweak::DisableGameDVR).len() ==> contains_seq(REVERT_DISABLE_GAME_DVR@, #[trigger] revert_commands(Tweak::DisableGameDVR)[j]),
{
    reveal_strlit(r#"
            $ErrorActionPreference = 'SilentlyContinue'
            Set-ItemProperty -Path "HKCU:\System\GameConfigStore" -Name "GameDVR_Enabled" -Value 1
            Remove-ItemProperty -Path "HKLM:\SOFTWARE\Policies\Microsoft\Windows\GameDVR" -Name "AllowGameDVR"
            Write-Output "Xbox Game DVR re-enabled."
            "#);
    reveal_strlit(r#"Set-ItemProperty -Path "HKCU:\System\GameConfigStore" -Name "GameDVR_Enabled" -Value 1"#);
    assert(REVERT_DISABLE_GAME_DVR@.subrange(69, 155) =~= revert_commands(Tweak::DisableGameDVR)[0]);
    assert(occurs_at(REVERT_DISABLE_GAME_DVR@, revert_commands(Tweak::DisableGameDVR)[0], 69));
    reveal_strlit(r#"Remove-ItemProperty -Path "HKLM:\SOFTWARE\Policies\Microsoft\Windows\GameDVR" -Name "AllowGameDVR""#);
    assert(REVERT_DISABLE_GAME_DVR@.subrange(168, 266) =~= revert_commands(Tweak::DisableGameDVR)[1]);
    assert(occurs_at(REVERT_DISABLE_GAME_DVR@, revert_commands(Tweak::DisableGameDVR)[1], 168));
    reveal_strlit(r#"Write-Output "Xbox Game DVR re-enabled.""#);
    assert(REVERT_DISABLE_GAME_DVR@.subrange(279, 319) =~= revert_commands(Tweak::DisableGameDVR)[2]);
    assert(occurs_at(REVERT_DISABLE_GAME_DVR@, revert_commands(Tweak::DisableGameDVR)[2], 279));
    assert forall|j: int| 0 <= j < revert_commands(Tweak::DisableGameDVR).len() implies contains_seq(REVERT_DISABLE_GAME_DVR@, #[trigger] revert_commands(Tweak::DisableGameDVR)[j]) by {
        if j == 0 {
            assert(occurs_at(REVERT_DISABLE_GAME_DVR@, revert_commands(Tweak::DisableGameDVR)[0], 69));
        } else if j == 1 {
            assert(occurs_at(REVERT_DISABLE_GAME_DVR@, revert_commands(Tweak::DisableGameDVR)[1], 168));
        } else if j == 2 {
            assert(occurs_at(REVERT_DISABLE_GAME_DVR@, revert_commands(Tweak::DisableGameDVR)[2], 279));
        }
    }
}

proof fn lemma_revert_cloudflare_dns()
    ensures
        forall|j: int| 0 <= j < revert_commands(Tweak::CloudflareDns).len() ==> contains_seq(REVERT_CLOUDFLARE_DNS@, #[trigger] revert_commands(Tweak::CloudflareDns)[j]),
{
    reveal_strlit(r#"
            $ErrorActionPreference = 'SilentlyContinue'
            $adapters = Get-NetAdapter | Where-Object {$_.Status -eq 'Up'}
            foreach ($adapter in $adapters) {
                Set-DnsClientServerAddress -InterfaceIndex $adapter.InterfaceIndex -ResetServerAddresses
            }
            Write-Output "DNS settings reset to default."
            "#);
    reveal_strlit(r#"$adapters = Get-NetAdapter | Where-Object {$_.Status -eq 'Up'}"#);
    assert(REVERT_CLOUDFLARE_DNS@.subrange(69, 131) =~= revert_commands(Tweak::CloudflareDns)[0]);
    assert(occurs_at(REVERT_CLOUDFLARE_DNS@, revert_commands(Tweak::CloudflareDns)[0], 69));
    reveal_strlit(r#"foreach ($adapter in $adapters) {"#);
    assert(REVERT_CLOUDFLARE_DNS@.subrange(144, 177) =~= revert_commands(Tweak::CloudflareDns)[1]);
    assert(occurs_at(REVERT_CLOUDFLARE_DNS@, revert_commands(Tweak::CloudflareDns)[1], 144));
    reveal_strlit(r#"Set-DnsClientServerAddress -InterfaceIndex $adapter.InterfaceIndex -ResetServerAddresses"#);
    assert(REVERT_CLOUDFLARE_DNS@.subrange(194, 282) =~= revert_commands(Tweak::CloudflareDns)[2]);
    assert(occurs_at(REVERT_CLOUDFLARE_DNS@, revert_commands(Tweak::CloudflareDns)[2], 194));
    reveal_strlit(r#"Write-Output "DNS settings reset to default.""#);
    assert(REVERT_CLOUDFLARE_DNS@.subrange(309, 354) =~= revert_commands(Tweak::CloudflareDns)[3]);
    assert(occurs_at(REVERT_CLOUDFLARE_DNS@, revert_commands(Tweak::CloudflareDns)[3], 309));
    assert forall|j: int| 0 <= j < revert_commands(Tweak::CloudflareDns).len() implies contains_seq(REVERT_CLOUDFLARE_DNS@, #[trigger] revert_commands(Tweak::CloudflareDns)[j]) by {
        if j == 0 {
            assert(occurs_at(REVERT_CLOUDFLARE_DNS@, revert_commands(Tweak::CloudflareDns)[0], 69));
        } else if j == 1 {
            assert(occurs_at(REVERT_CLOUDFLARE_DNS@, revert_commands(Tweak::CloudflareDns)[1], 144));
        } else if j == 2 {
            assert(occurs_at(REVERT_CLOUDFLARE_DNS@, revert_commands(Tweak::CloudflareDns)[2], 194));
        } else if j == 3 {
            assert(occurs_at(REVERT_CLOUDFLARE_DNS@, revert_commands(Tweak::CloudflareDns)[3], 309));
        }
    }
}

proof fn lemma_revert_disable_indexing()
    ensures
        forall|j: int| 0 <= j < revert_commands(Tweak::DisableIndexing).len() ==> contains_seq(REVERT_DISABLE_INDEXING@, #[trigger] revert_commands(Tweak::DisableIndexing)[j]),
{
    reveal_strlit(r#"
            $ErrorActionPreference = 'SilentlyContinue'
            Set-Service -Name "WSearch" -StartupType Automatic
            Start-Service -Name "WSearch"
            Write-Output "Windows Search Indexing service re-enabled."
            "#);
    reveal_strlit(r#"Set-Service -Name "WSearch" -StartupType Automatic"#);
    assert(REVERT_DISABLE_INDEXING@.subrange(69, 119) =~= revert_commands(Tweak::DisableIndexing)[0]);
    assert(occurs_at(REVERT_DISABLE_INDEXING@, revert_commands(Tweak::DisableIndexing)[0], 69));
    reveal_strlit(r#"Start-Service -Name "WSearch""#);
    assert(REVERT_DISABLE_INDEXING@.subrange(132, 161) =~= revert_commands(Tweak::DisableIndexing)[1]);
    assert(occurs_at(REVERT_DISABLE_INDEXING@, revert_commands(Tweak::DisableIndexing)[1], 132));
    reveal_strlit(r#"Write-Output "Windows Search Indexing service re-enabled.""#);
    assert(REVERT_DISABLE_INDEXING@.subrange(174, 232) =~= revert_commands(Tweak::DisableIndexing)[2]);
    assert(occurs_at(REVERT_DISABLE_INDEXING@, revert_commands(Tweak::DisableIndexing)[2], 174));
    assert forall|j: int| 0 <= j < revert_commands(Tweak::DisableIndexing).len() implies contains_seq(REVERT_DISABLE_INDEXING@, #[trigger] revert_commands(Tweak::DisableIndexing)[j]) by {
        if j == 0 {
            assert(occurs_at(REVERT_DISABLE_INDEXING@, revert_commands(Tweak::DisableIndexing)[0], 69));
        } else if j == 1 {
            assert(occurs_at(REVERT_DISABLE_INDEXING@, revert_commands(Tweak::DisableIndexing)[1], 132));
        } else if j == 2 {
            assert(occurs_at(REVERT_DISABLE_INDEXING@, revert_commands(Tweak::DisableIndexing)[2], 174));
        }
    }
}

proof fn lemma_revert_god_mode()
    ensures
        forall|j: int| 0 <= j < revert_commands(Tweak::GodMode).len() ==> contains_seq(REVERT_GOD_MODE@, #[trigger] revert_commands(Tweak::GodMode)[j]),
{
    reveal_strlit(r#"
            $ErrorActionPreference = 'SilentlyContinue'
            $DesktopPath = [System.IO.Path]::Combine([Environment]::GetFolderPath('Desktop'), 'GodMode.{ED7BA470-8E54-465E-825C-99712043E01C}')
            if (Test-Path $DesktopPath) {
                Remove-Item -Path $DesktopPath -Recurse -Force
                Write-Output "God Mode folder removed."
            } else {
                Write-Output "God Mode folder not found."
            }
            "#);
    reveal_strlit(r#"$DesktopPath = [System.IO.Path]::Combine([Environment]::GetFolderPath('Desktop'), 'GodMode.{ED7BA470-8E54-465E-825C-99712043E01C}')"#);
    assert(REVERT_GOD_MODE@.subrange(69, 200) =~= revert_commands(Tweak::GodMode)[0]);
    assert(occurs_at(REVERT_GOD_MODE@, revert_commands(Tweak::GodMode)[0], 69));
    reveal_strlit(r#"if (Test-Path $DesktopPath) {"#);
    assert(REVERT_GOD_MODE@.subrange(213, 242) =~= revert_commands(Tweak::GodMode)[1]);
    assert(occurs_at(REVERT_GOD_MODE@, revert_commands(Tweak::GodMode)[1], 213));
    reveal_strlit(r#"Remove-Item -Path $DesktopPath -Recurse -Force"#);
    assert(REVERT_GOD_MODE@.subrange(259, 305) =~= revert_commands(Tweak::GodMode)[2]);
    assert(occurs_at(REVERT_GOD_MODE@, revert_commands(Tweak::GodMode)[2], 259));
    reveal_strlit(r#"Write-Output "God Mode folder removed.""#);
    assert(REVERT_GOD_MODE@.subrange(322, 361) =~= revert_commands(Tweak::GodMode)[3]);
    assert(occurs_at(REVERT_GOD_MODE@, revert_commands(Tweak::GodMode)[3], 322));
    reveal_strlit(r#"} else {"#);
    assert(REVERT_GOD_MODE@.subrange(374, 382) =~= revert_commands(Tweak::GodMode)[4]);
    assert(occurs_at(REVERT_GOD_MODE@, revert_commands(Tweak::GodMode)[4], 374));
    reveal_strlit(r#"Write-Output "God Mode folder not found.""#);
    assert(REVERT_GOD_MODE@.subrange(399, 440) =~= revert_commands(Tweak::GodMode)[5]);
    assert(occurs_at(REVERT_GOD_MODE@, revert_commands(Tweak::GodMode)[5], 399));
    assert forall|j: int| 0 <= j < revert_commands(Tweak::GodMode).len() implies contains_seq(REVERT_GOD_MODE@, #[trigger] revert_commands(Tweak::GodMode)[j]) by {
        if j == 0 {
            assert(occurs_at(REVERT_GOD_MODE@, revert_commands(Tweak::GodMode)[0], 69));
        } else if j == 1 {
            assert(occurs_at(REVERT_GOD_MODE@, revert_commands(Tweak::GodMode)[1], 213));
        } else if j == 2 {
            assert(occurs_at(REVERT_GOD_MODE@, revert_commands(Tweak::GodMode)[2], 259));
        } else if j == 3 {
            assert(occurs_at(REVERT_GOD_MODE@, revert_commands(Tweak::GodMode)[3], 322));
        } else if j == 4 {
            assert(occurs_at(REVERT_GOD_MODE@, revert_commands(Tweak::GodMode)[4], 374));
        } else if j == 5 {
            assert(occurs_at(REVERT_GOD_MODE@, revert_commands(Tweak::GodMode)[5], 399));
        }
    }
}

proof fn lemma_revert_flush_dns()
    ensures
        forall|j: int| 0 <= j < revert_commands(Tweak::FlushDNS).len() ==> contains_seq(REVERT_FLUSH_DNS@, #[trigger] revert_commands(Tweak::FlushDNS)[j]),
{
    reveal_strlit(r#"
            $ErrorActionPreference = 'SilentlyContinue'
            $DesktopPath = [System.IO.Path]::Combine([Environment]::GetFolderPath('Desktop'), "Flush DNS.bat")
            if (Test-Path $DesktopPath) {
                Remove-Item -Path $DesktopPath -Force
                Write-Output "Flush DNS shortcut removed."
            } else {
                Write-Output "Flush DNS shortcut not found."
            }
            "#);
    reveal_strlit(r#"$DesktopPath = [System.IO.Path]::Combine([Environment]::GetFolderPath('Desktop'), "Flush DNS.bat")"#);
    assert(REVERT_FLUSH_DNS@.subrange(69, 167) =~= revert_commands(Tweak::FlushDNS)[0]);
    assert(occurs_at(REVERT_FLUSH_DNS@, revert_commands(Tweak::FlushDNS)[0], 69));
    reveal_strlit(r#"if (Test-Path $DesktopPath) {"#);
    assert(REVERT_FLUSH_DNS@.subrange(180, 209) =~= revert_commands(Tweak::FlushDNS)[1]);
    assert(occurs_at(REVERT_FLUSH_DNS@, revert_commands(Tweak::FlushDNS)[1], 180));
    reveal_strlit(r#"Remove-Item -Path $DesktopPath -Force"#);
    assert(REVERT_FLUSH_DNS@.subrange(226, 263) =~= revert_commands(Tweak::FlushDNS)[2]);
    assert(occurs_at(REVERT_FLUSH_DNS@, revert_commands(Tweak::FlushDNS)[2], 226));
    reveal_strlit(r#"Write-Output "Flush DNS shortcut removed.""#);
    assert(REVERT_FLUSH_DNS@.subrange(280, 322) =~= revert_commands(Tweak::FlushDNS)[3]);
    assert(occurs_at(REVERT_FLUSH_DNS@, revert_commands(Tweak::FlushDNS)[3], 280));
    reveal_strlit(r#"} else {"#);
    assert(REVERT_FLUSH_DNS@.subrange(335, 343) =~= revert_commands(Tweak::FlushDNS)[4]);
    assert(occurs_at(REVERT_FLUSH_DNS@, revert_commands(Tweak::FlushDNS)[4], 335));
    reveal_strlit(r#"Write-Output "Flush DNS shortcut not found.""#);
    assert(REVERT_FLUSH_DNS@.subrange(360, 404) =~= revert_commands(Tweak::FlushDNS)[5]);
    assert(occurs_at(REVERT_FLUSH_DNS@, revert_commands(Tweak::FlushDNS)[5], 360));
    assert forall|j: int| 0 <= j < revert_commands(Tweak::FlushDNS).len() implies contains_seq(REVERT_FLUSH_DNS@, #[trigger] revert_commands(Tweak::FlushDNS)[j]) by {
        if j == 0 {
            assert(occurs_at(REVERT_FLUSH_DNS@, revert_commands(Tweak::FlushDNS)[0], 69));
        } else if j == 1 {
            assert(occurs_at(REVERT_FLUSH_DNS@, revert_commands(Tweak::FlushDNS)[1], 180));
        } else if j == 2 {
            assert(occurs_at(REVERT_FLUSH_DNS@, revert_commands(Tweak::FlushDNS)[2], 226));
        } else if j == 3 {
            assert(occurs_at(REVERT_FLUSH_DNS@, revert_commands(Tweak::FlushDNS)[3], 280));
        } else if j == 4 {
            assert(occurs_at(REVERT_FLUSH_DNS@, revert_commands(Tweak::FlushDNS)[4], 335));
        } else if j == 5 {
            assert(occurs_at(REVERT_FLUSH_DNS@, revert_commands(Tweak::FlushDNS)[5], 360));
        }
    }
}

proof fn lemma_revert_schedule_cleanup()
    ensures
        forall|j: int| 0 <= j < revert_commands(Tweak::ScheduleCleanup).len() ==> contains_seq(REVERT_SCHEDULE_CLEANUP@, #[trigger] revert_commands(Tweak::ScheduleCleanup)[j]),
{
    reveal_strlit(r#"
            $ErrorActionPreference = 'SilentlyContinue'
            Unregister-ScheduledTask -TaskName "WinForgeDailyCleanup" -Confirm:$false
            Write-Output "Scheduled cleanup task removed."
            "#);
    reveal_strlit(r#"Unregister-ScheduledTask -TaskName "WinForgeDailyCleanup" -Confirm:$false"#);
    assert(REVERT_SCHEDULE_CLEANUP@.subrange(69, 142) =~= revert_commands(Tweak::ScheduleCleanup)[0]);
    assert(occurs_at(REVERT_SCHEDULE_CLEANUP@, revert_commands(Tweak::ScheduleCleanup)[0], 69));
    reveal_strlit(r#"Write-Output "Scheduled cleanup task removed.""#);
    assert(REVERT_SCHEDULE_CLEANUP@.subrange(155, 201) =~= revert_commands(Tweak::ScheduleCleanup)[1]);
    assert(occurs_at(REVERT_SCHEDULE_CLEANUP@, revert_commands(Tweak::ScheduleCleanup)[1], 155));
    assert forall|j: int| 0 <= j < revert_commands(Tweak::ScheduleCleanup).len() implies contains_seq(REVERT_SCHEDULE_CLEANUP@, #[trigger] revert_commands(Tweak::ScheduleCleanup)[j]) by {
        if j == 0 {
            assert(occurs_at(REVERT_SCHEDULE_CLEANUP@, revert_commands(Tweak::ScheduleCleanup)[0], 69));
        } else if j == 1 {
            assert(occurs_at(REVERT_SCHEDULE_CLEANUP@, revert_commands(Tweak::ScheduleCleanup)[1], 155));
        }
    }
}

/// The script that applies a tweak runs every command of that tweak, and
/// prints its confirmation.
pub proof fn lemma_apply_script_runs_its_commands(t: Tweak)
    ensures
        forall|j: int|
            0 <= j < apply_commands(t).len() ==> contains_seq(
                apply_script_text(t),
                #[trigger] apply_commands(t)[j],
            ),
{
    match t {
        Tweak::CleanTemp => lemma_apply_clean_temp(),
        Tweak::Debloat => lemma_apply_debloat(),
        Tweak::HighPerf => lemma_apply_high_perf(),
        Tweak::VisualEffects => lemma_apply_visual_effects(),
        Tweak::NetworkTweak => lemma_apply_network_tweak(),
        Tweak::DisableStartup => lemma_apply_disable_startup(),
        Tweak::DarkMode => lemma_apply_dark_mode(),
        Tweak::Telemetry => lemma_apply_telemetry(),
        Tweak::DefaultBrowserPrompt => lemma_apply_default_browser_prompt(),
        Tweak::TrimSSD => lemma_apply_trim_ssd(),
        Tweak::DisableHibernate => lemma_apply_disable_hibernate(),
        Tweak::ResetNetwork => lemma_apply_reset_network(),
        Tweak::DisableCortana => lemma_apply_disable_cortana(),
        Tweak::DisableGameDVR => lemma_apply_disable_game_dvr(),
        Tweak::CloudflareDns => lemma_apply_cloudflare_dns(),
        Tweak::DisableIndexing => lemma_apply_disable_indexing(),
        Tweak::GodMode => lemma_apply_god_mode(),
        Tweak::FlushDNS => lemma_apply_flush_dns(),
        Tweak::ScheduleCleanup => lemma_apply_schedule_cleanup(),
    }
}

/// The script that reverts a tweak, where there is one, runs every command
/// that undoes that tweak, and prints its confirmation; a tweak has a revert
/// script exactly when it has such commands.
pub proof fn lemma_revert_script_runs_its_commands(t: Tweak)
    ensures
        revert_script_text(t) is Some <==> revert_commands(t).len() > 0,
        revert_script_text(t) matches Some(s) ==> forall|j: int|
            0 <= j < revert_commands(t).len() ==> contains_seq(s, #[trigger] revert_commands(t)[j]),
{
    match t {
        Tweak::CleanTemp => {},
        Tweak::Debloat => lemma_revert_debloat(),
        Tweak::HighPerf => lemma_revert_high_perf(),
        Tweak::VisualEffects => lemma_revert_visual_effects(),
        Tweak::NetworkTweak => lemma_revert_network_tweak(),
        Tweak::DisableStartup => lemma_revert_disable_startup(),
        Tweak::DarkMode => lemma_revert_dark_mode(),
        Tweak::Telemetry => lemma_revert_telemetry(),
        Tweak::DefaultBrowserPrompt => lemma_revert_default_browser_prompt(),
        Tweak::TrimSSD => {},
        Tweak::DisableHibernate => lemma_revert_disable_hibernate(),
        Tweak::ResetNetwork => {},
        Tweak::DisableCortana => lemma_revert_disable_cortana(),
        Tweak::DisableGameDVR => lemma_revert_disable_game_dvr(),
        Tweak::CloudflareDns => lemma_revert_cloudflare_dns(),
        Tweak::DisableIndexing => lemma_revert_disable_indexing(),
        Tweak::GodMode => lemma_revert_god_mode(),
        Tweak::FlushDNS => lemma_revert_flush_dns(),
        Tweak::ScheduleCleanup => lemma_revert_schedule_cleanup(),
    }
}

} // verus!
