//! The hardware and system summary: the script that gathers it and the
//! handling of its result.
use vstd::prelude::*;
use crate::command::{CommandOutput, stdout_text, stderr_text};
use crate::text::concat2;

verus! {

/// The PowerShell script that prints the system summary as a JSON object
/// with the keys `cpu`, `gpu`, `ram`, `storage`, `os`, `tpm` and `secureBoot`.
pub const SYSTEM_INFO_SCRIPT: &'static str = r#"
        $ErrorActionPreference = 'SilentlyContinue'
        
        # CPU Info
        $cpu_info = Get-CimInstance Win32_Processor
        if ($cpu_info -is [array]) { $cpu_info = $cpu_info[0] }
        $cpu_name = $cpu_info.Name.Trim()
        $cores = $cpu_info.NumberOfCores
        $threads = $cpu_info.NumberOfLogicalProcessors
        if ($cores -and $threads) {
            $cpu_display = "$cpu_name ($cores Cores / $threads Threads)"
        } else {
            $cpu_display = $cpu_name
        }
        
        # GPU Info
        $gpu = (Get-CimInstance Win32_VideoController).Name
        if ($gpu -is [array]) { $gpu = $gpu -join ', ' }
        
        # RAM Info
        $ram_bytes = (Get-CimInstance Win32_PhysicalMemory | Measure-Object Capacity -Sum).Sum
        $ram_gb = [Math]::Round($ram_bytes / 1GB)
        $ram_speed = (Get-CimInstance Win32_PhysicalMemory | Measure-Object Speed -Maximum).Maximum
        if ($ram_speed -and $ram_speed -gt 0) {
            $ram_display = "$ram_gb GB @ $ram_speed MHz"
        } else {
            $ram_display = "$ram_gb GB"
        }
        
        # Storage Info (all fixed volumes)
        $vols = Get-Volume | Where-Object { $_.DriveType -eq 'Fixed' -and $_.DriveLetter }
        $storage_info = @()
        foreach ($vol in $vols) {
            $free = [Math]::Round($vol.SizeRemaining / 1GB)
            $total = [Math]::Round($vol.Size / 1GB)
            $storage_info += "$($vol.DriveLetter): $free GB free / $total GB"
        }
        $storage_display = $storage_info -join "`n"
        
        # OS Info
        $os = (Get-CimInstance Win32_OperatingSystem).Caption
        $build = (Get-CimInstance Win32_OperatingSystem).BuildNumber
        
        # TPM Info
        $tpm_status = "Not Found / Disabled"
        try {
            $tpm = Get-CimInstance -Namespace Root\CIMv2\Security\MicrosoftTpm -ClassName Win32_Tpm -ErrorAction Stop
            if ($tpm) {
                $ver = $tpm.SpecVersion.Split(",")[0].Trim()
                if ($tpm.IsEnabled_InitialValue -eq $true -or $tpm.IsActivated_InitialValue -eq $true) {
                    $tpm_status = "TPM $ver Enabled"
                } else {
                    $tpm_status = "TPM $ver Disabled"
                }
            } else {
                throw "No TPM instance"
            }
        } catch {
            try {
                $tpmtool = tpmtool getdeviceinformation
                $present = ($tpmtool | Select-String "-TPM Present:").Line
                $version = ($tpmtool | Select-String "-TPM Version:").Line
                if ($present -match "True") {
                    $ver = "2.0"
                    if ($version -match "([0-9\.]+)") {
                        $ver = $Matches[1]
                    }
                    $tpm_status = "TPM $ver Enabled"
                }
            } catch {
                $tpm_status = "Not Found / Disabled"
            }
        }
        
        # Secure Boot Info
        $sb_status = "Disabled"
        try {
            $sb = Get-ItemProperty -Path "HKLM:\System\CurrentControlSet\Control\SecureBoot\State" -Name "UEFISecureBootEnabled" -ErrorAction SilentlyContinue
            if ($sb -and $sb.UEFISecureBootEnabled -eq 1) {
                $sb_status = "Enabled"
            }
        } catch {
            $sb_status = "Disabled"
        }
        
        $result = @{
            cpu = $cpu_display
            gpu = $gpu.Trim()
            ram = $ram_display
            storage = $storage_display
            os = "$os (Build $build)"
            tpm = $tpm_status
            secureBoot = $sb_status
        }
        $result | ConvertTo-Json
    "#;

/// The JSON text that the summary run `run` yields, or the error to return:
/// the reason when the script could not start, and its error output when it
/// failed.
pub open spec fn summary_text(run: Result<CommandOutput, String>) -> Result<Seq<char>, Seq<char>> {
    match run {
        Ok(o) => if o.success {
            Ok(stdout_text(o))
        } else {
            Err(stderr_text(o))
        },
        Err(e) => Err(e@),
    }
}

/// The JSON text of the summary run `run`, or the error to return.
pub fn system_info_json(run: &Result<CommandOutput, String>) -> (r: Result<String, String>)
    ensures
        match r {
            Ok(t) => summary_text(*run) == Ok::<Seq<char>, Seq<char>>(t@),
            Err(e) => summary_text(*run) == Err::<Seq<char>, Seq<char>>(e@),
        },
{
    match run {
        Ok(o) => {
            if o.success {
                Ok(o.stdout_string())
            } else {
                Err(o.stderr_string())
            }
        },
        Err(e) => Err(e.clone()),
    }
}

/// The error returned when the summary text is not the expected JSON object:
/// the parser's complaint, then the text itself.
pub fn parse_failure(complaint: &str, output: &str) -> (m: String)
    ensures
        m@ == "Failed to parse JSON: "@ + complaint@ + ", output: "@ + output@,
{
    let mut m = concat2("Failed to parse JSON: ", complaint);
    m.append(", output: ");
    m.append(output);
    m
}

} // verus!
