//! The NSIS installer script for Windows packages.
use vstd::prelude::*;
use crate::text::{chars_of, eq_ignore_ascii_case, eq_ignore_ascii_case_exec, push_str, string_of};

verus! {

/// Backslashes become forward slashes (NSIS paths written from Windows
/// paths).
pub open spec fn forward_slashes(s: Seq<char>) -> Seq<char> {
    s.map_values(|c: char| if c == '\\' {
        '/'
    } else {
        c
    })
}

pub fn forward_slashes_exec(p: &str) -> (r: String)
    ensures
        r@ == forward_slashes(p@),
{
    let v = chars_of(p);
    let mut out: Vec<char> = Vec::new();
    let mut i: usize = 0;
    while i < v.len()
        invariant
            i <= v.len(),
            out@ == forward_slashes(v@.take(i as int)),
        decreases v.len() - i,
    {
        out.push(if v[i] == '\\' {
            '/'
        } else {
            v[i]
        });
        assert(forward_slashes(v@.take(i + 1)) =~= forward_slashes(v@.take(i as int)).push(
            if v@[i as int] == '\\' {
                '/'
            } else {
                v@[i as int]
            },
        ));
        i += 1;
    }
    assert(v@.take(v.len() as int) =~= v@);
    string_of(out.as_slice())
}

/// Machine-wide installs (`per-machine` or `admin`, in any ASCII case);
/// anything else installs for the current user.
pub open spec fn nsis_per_machine(scope: Seq<char>) -> bool {
    eq_ignore_ascii_case(scope, "per-machine"@) || eq_ignore_ascii_case(scope, "admin"@)
}

pub open spec fn nsis_icon_section(icon: Option<Seq<char>>) -> Seq<char> {
    match icon {
        Some(i) => {
            let p = forward_slashes(i);
            "!define MUI_ICON \""@ + p + "\"\n!define MUI_UNICON \""@ + p + "\"\n"@
        },
        None => Seq::empty(),
    }
}

pub open spec fn nsis_license_section(license: Option<Seq<char>>) -> Seq<char> {
    match license {
        Some(l) => {
            let p = forward_slashes(l);
            "!insertmacro MUI_PAGE_LICENSE \""@ + p + "\"\n"@
        },
        None => Seq::empty(),
    }
}

pub open spec fn nsis_shortcuts(app: Seq<char>, exe: Seq<char>, start_menu: bool, desktop: bool) -> Seq<
    char,
> {
    (if start_menu {
        "    CreateDirectory \"$SMPROGRAMS\\"@ + app + "\"\n    CreateShortCut \"$SMPROGRAMS\\"@ + app + "\\"@ + app + ".lnk\" \"$INSTDIR\\"@ + exe + "\" \"\" \"$INSTDIR\\"@ + exe + "\" 0\n    CreateShortCut \"$SMPROGRAMS\\"@ + app + "\\Desinstalar "@ + app + ".lnk\" \"$INSTDIR\\uninstall.exe\" \"\" \"$INSTDIR\\uninstall.exe\" 0\n"@
    } else {
        Seq::empty()
    }) + (if desktop {
        "    CreateShortCut \"$DESKTOP\\"@ + app + ".lnk\" \"$INSTDIR\\"@ + exe + "\" \"\" \"$INSTDIR\\"@ + exe + "\" 0\n"@
    } else {
        Seq::empty()
    })
}

pub open spec fn nsis_uninstall_shortcuts(app: Seq<char>, start_menu: bool, desktop: bool) -> Seq<char> {
    (if start_menu {
        "    Delete \"$SMPROGRAMS\\"@ + app + "\\"@ + app + ".lnk\"\n    Delete \"$SMPROGRAMS\\"@ + app + "\\Desinstalar "@ + app + ".lnk\"\n    RMDir \"$SMPROGRAMS\\"@ + app + "\"\n"@
    } else {
        Seq::empty()
    }) + (if desktop {
        "    Delete \"$DESKTOP\\"@ + app + ".lnk\"\n"@
    } else {
        Seq::empty()
    })
}

pub open spec fn nsis_scope_label(per_machine: bool) -> Seq<char> {
    if per_machine {
        "Sistema"@
    } else {
        "Usuario"@
    }
}

pub open spec fn nsis_reg_root(per_machine: bool) -> Seq<char> {
    if per_machine {
        "HKLM"@
    } else {
        "HKCU"@
    }
}

pub open spec fn nsis_env_key(per_machine: bool) -> Seq<char> {
    if per_machine {
        "SYSTEM\\CurrentControlSet\\Control\\Session Manager\\Environment"@
    } else {
        "Environment"@
    }
}

pub open spec fn nsis_path_add(per_machine: bool) -> Seq<char> {
    let scope = nsis_scope_label(per_machine);
    let reg_root = nsis_reg_root(per_machine);
    let env_key = nsis_env_key(per_machine);
    "\n    ; Agregar al PATH ("@ + scope + ")\n    DetailPrint \"Configurando variable de entorno PATH...\"\n    ReadRegStr $0 "@ + reg_root + " \""@ + env_key + "\" \"PATH\"\n    ${If} $0 == \"\"\n        WriteRegExpandStr "@ + reg_root + " \""@ + env_key + "\" \"PATH\" \"$INSTDIR\"\n    ${Else}\n        Push \"$0\"\n        Push \"$INSTDIR\"\n        Call StrContains\n        Pop $1\n        ${If} $1 == \"0\"\n            WriteRegExpandStr "@ + reg_root + " \""@ + env_key + "\" \"PATH\" \"$0;$INSTDIR\"\n        ${EndIf}\n    ${EndIf}\n    SendMessage ${HWND_BROADCAST} ${WM_SETTINGCHANGE} 0 \"STR:Environment\" /TIMEOUT=5000\n"@
}

pub open spec fn nsis_path_remove(per_machine: bool) -> Seq<char> {
    let scope = nsis_scope_label(per_machine);
    let reg_root = nsis_reg_root(per_machine);
    let env_key = nsis_env_key(per_machine);
    "\n    ; Remover del PATH ("@ + scope + ")\n    DetailPrint \"Removiendo de la variable PATH...\"\n    ReadRegStr $0 "@ + reg_root + " \""@ + env_key + "\" \"PATH\"\n    Push \"$0\"\n    Push \"$INSTDIR;\"\n    Push \"\"\n    Call un.StrReplace\n    Pop $0\n\n    Push \"$0\"\n    Push \";$INSTDIR\"\n    Push \"\"\n    Call un.StrReplace\n    Pop $0\n\n    Push \"$0\"\n    Push \"$INSTDIR\"\n    Push \"\"\n    Call un.StrReplace\n    Pop $0\n\n    WriteRegExpandStr "@ + reg_root + " \""@ + env_key + "\" \"PATH\" \"$0\"\n    SendMessage ${HWND_BROADCAST} ${WM_SETTINGCHANGE} 0 \"STR:Environment\" /TIMEOUT=5000\n"@
}

/// The whole installer script.
pub open spec fn nsis_script_spec(
    app_name: Seq<char>,
    app_version: Seq<char>,
    vendor: Seq<char>,
    icon_path: Option<Seq<char>>,
    staging_dir: Seq<char>,
    exe_name: Seq<char>,
    add_to_path: bool,
    desktop_shortcut: bool,
    start_menu: bool,
    scope: Seq<char>,
    license_path: Option<Seq<char>>,
    output_installer: Seq<char>,
) -> Seq<char> {
    let pm = nsis_per_machine(scope);
    let exec_level = if pm {
        "admin"@
    } else {
        "user"@
    };
    let reg_root = nsis_reg_root(pm);
    let default_dir = if pm {
        "$PROGRAMFILES64\\"@ + app_name
    } else {
        "$LOCALAPPDATA\\Programs\\"@ + app_name
    };
    let staging_dir_str = forward_slashes(staging_dir);
    let output_installer_str = forward_slashes(output_installer);
    let icon_section = nsis_icon_section(icon_path);
    let license_section = nsis_license_section(license_path);
    let shortcuts_code = nsis_shortcuts(app_name, exe_name, start_menu, desktop_shortcut);
    let uninstall_shortcuts_code = nsis_uninstall_shortcuts(app_name, start_menu, desktop_shortcut);
    let path_add_code = if add_to_path {
        nsis_path_add(pm)
    } else {
        Seq::empty()
    };
    let path_remove_code = if add_to_path {
        nsis_path_remove(pm)
    } else {
        Seq::empty()
    };
    "; Script NSIS generado automáticamente por Jolt\nUnicode True\nSetCompressor /SOLID lzma\n\n!include \"MUI2.nsh\"\n!include \"LogicLib.nsh\"\n!include \"WinMessages.nsh\"\n\n!define PRODUCT_NAME \""@ + app_name + "\"\n!define PRODUCT_VERSION \""@ + app_version + "\"\n!define PRODUCT_PUBLISHER \""@ + vendor + "\"\n!define PRODUCT_DIR_REGKEY \"Software\\Microsoft\\Windows\\CurrentVersion\\App Paths\\"@ + exe_name + "\"\n!define PRODUCT_UNINST_KEY \"Software\\Microsoft\\Windows\\CurrentVersion\\Uninstall\\${PRODUCT_NAME}\"\n!define PRODUCT_UNINST_ROOT_KEY \""@ + reg_root + "\"\n\nName \"${PRODUCT_NAME} v${PRODUCT_VERSION}\"\nOutFile \""@ + output_installer_str + "\"\nInstallDir \""@ + default_dir + "\"\nInstallDirRegKey ${PRODUCT_UNINST_ROOT_KEY} \"${PRODUCT_UNINST_KEY}\" \"UninstallString\"\nRequestExecutionLevel "@ + exec_level + "\n\n!define MUI_ABORTWARNING\n"@ + icon_section + "\n\n!insertmacro MUI_PAGE_WELCOME\n"@ + license_section + "!insertmacro MUI_PAGE_DIRECTORY\n!insertmacro MUI_PAGE_INSTFILES\n\n!define MUI_FINISHPAGE_TITLE \"Instalación completada\"\n!define MUI_FINISHPAGE_TEXT \"${PRODUCT_NAME} se ha instalado correctamente en su equipo.\"\n!insertmacro MUI_PAGE_FINISH\n\n!insertmacro MUI_UNPAGE_CONFIRM\n!insertmacro MUI_UNPAGE_INSTFILES\n!insertmacro MUI_UNPAGE_FINISH\n\n!insertmacro MUI_LANGUAGE \"Spanish\"\n!insertmacro MUI_LANGUAGE \"English\"\n\nFunction StrContains\n  Exch $1 ; needle\n  Exch\n  Exch $0 ; haystack\n  Push $2\n  Push $3\n  Push $4\n  StrCpy $2 -1\n  StrLen $3 $1\n  loop:\n    IntOp $2 $2 + 1\n    StrCpy $4 $0 $3 $2\n    StrCmp $4 \"\" notfound\n    StrCmp $4 $1 found\n    Goto loop\n  found:\n    StrCpy $0 \"1\"\n    Goto done\n  notfound:\n    StrCpy $0 \"0\"\n  done:\n    Pop $4\n    Pop $3\n    Pop $2\n    Pop $1\n    Exch $0\nFunctionEnd\n\nFunction un.StrReplace\n  Exch $2 ; replacement\n  Exch 1\n  Exch $1 ; to replace\n  Exch 2\n  Exch $0 ; original\n  Push $3\n  Push $4\n  Push $5\n  Push $6\n  Push $7\n  StrLen $4 $1\n  StrCpy $7 \"\"\n  loop:\n    StrCpy $3 $0 $4\n    StrCmp $3 $1 match\n    StrCmp $0 \"\" done\n    StrCpy $5 $0 1\n    StrCpy $7 \"$7$5\"\n    StrCpy $0 $0 \"\" 1\n    Goto loop\n  match:\n    StrCpy $7 \"$7$2\"\n    StrCpy $0 $0 \"\" $4\n    Goto loop\n  done:\n    StrCpy $0 $7\n    Pop $7\n    Pop $6\n    Pop $5\n    Pop $4\n    Pop $3\n    Pop $2\n    Pop $1\n    Exch $0\nFunctionEnd\n\nSection \"MainSection\" SEC01\n    SetOutPath \"$INSTDIR\"\n    File /r \""@ + staging_dir_str + "\\*.*\"\n    \n    WriteUninstaller \"$INSTDIR\\uninstall.exe\"\n    \n"@ + shortcuts_code + "\n    WriteRegStr ${PRODUCT_UNINST_ROOT_KEY} \"${PRODUCT_UNINST_KEY}\" \"DisplayName\" \"${PRODUCT_NAME}\"\n    WriteRegStr ${PRODUCT_UNINST_ROOT_KEY} \"${PRODUCT_UNINST_KEY}\" \"UninstallString\" \"$\\\"$INSTDIR\\uninstall.exe$\\\"\"\n    WriteRegStr ${PRODUCT_UNINST_ROOT_KEY} \"${PRODUCT_UNINST_KEY}\" \"DisplayIcon\" \"$\\\"$INSTDIR\\"@ + exe_name + "$\\\"\"\n    WriteRegStr ${PRODUCT_UNINST_ROOT_KEY} \"${PRODUCT_UNINST_KEY}\" \"DisplayVersion\" \"${PRODUCT_VERSION}\"\n    WriteRegStr ${PRODUCT_UNINST_ROOT_KEY} \"${PRODUCT_UNINST_KEY}\" \"Publisher\" \"${PRODUCT_PUBLISHER}\"\n    WriteRegStr ${PRODUCT_UNINST_ROOT_KEY} \"${PRODUCT_UNINST_KEY}\" \"InstallLocation\" \"$INSTDIR\"\n    WriteRegStr ${PRODUCT_UNINST_ROOT_KEY} \"${PRODUCT_DIR_REGKEY}\" \"\" \"$\\\"$INSTDIR\\"@ + exe_name + "$\\\"\"\n"@ + path_add_code + "\nSectionEnd\n\nSection \"Uninstall\"\n"@ + path_remove_code + "\n"@ + uninstall_shortcuts_code + "\n    DeleteRegKey ${PRODUCT_UNINST_ROOT_KEY} \"${PRODUCT_UNINST_KEY}\"\n    DeleteRegKey ${PRODUCT_UNINST_ROOT_KEY} \"${PRODUCT_DIR_REGKEY}\"\n    RMDir /r \"$INSTDIR\"\nSectionEnd\n"@
}

/// `x` occurs in `s` as a run of consecutive characters.
pub open spec fn occurs_in(x: Seq<char>, s: Seq<char>) -> bool {
    exists|i: int| 0 <= i && i + x.len() <= s.len() && #[trigger] s.subrange(i, i + x.len()) == x
}

proof fn lemma_occurs_extend(a: Seq<char>, b: Seq<char>, x: Seq<char>)
    requires
        occurs_in(x, a),
    ensures
        occurs_in(x, a + b),
{
    let i = choose|i: int| 0 <= i && i + x.len() <= a.len() && #[trigger] a.subrange(i, i + x.len()) == x;
    assert((a + b).subrange(i, i + x.len()) =~= a.subrange(i, i + x.len()));
}

proof fn lemma_occurs_grows(x: Seq<char>)
    ensures
        forall|a: Seq<char>, b: Seq<char>| occurs_in(x, b) ==> #[trigger] occurs_in(x, a + b),
        forall|a: Seq<char>, b: Seq<char>| occurs_in(x, a) ==> #[trigger] occurs_in(x, a + b),
{
    assert forall|a: Seq<char>, b: Seq<char>| occurs_in(x, b) implies #[trigger] occurs_in(x, a + b) by {
        let i = choose|i: int| 0 <= i && i + x.len() <= b.len() && #[trigger] b.subrange(i, i + x.len()) == x;
        assert((a + b).subrange(a.len() + i, a.len() + i + x.len()) =~= b.subrange(i, i + x.len()));
    }
    assert forall|a: Seq<char>, b: Seq<char>| occurs_in(x, a) implies #[trigger] occurs_in(x, a + b) by {
        lemma_occurs_extend(a, b, x);
    }
}

/// With an icon, the installer script uses it for the installer and the
/// uninstaller: `!define MUI_ICON "<path>"`, the path with backslashes
/// turned to forward slashes.
pub proof fn lemma_script_uses_icon(
    app_name: Seq<char>,
    app_version: Seq<char>,
    vendor: Seq<char>,
    icon: Seq<char>,
    staging_dir: Seq<char>,
    exe_name: Seq<char>,
    add_to_path: bool,
    desktop_shortcut: bool,
    start_menu: bool,
    scope: Seq<char>,
    license_path: Option<Seq<char>>,
    output_installer: Seq<char>,
)
    ensures
        occurs_in(
            "!define MUI_ICON \""@ + forward_slashes(icon) + "\""@,
            nsis_script_spec(
                app_name,
                app_version,
                vendor,
                Some(icon),
                staging_dir,
                exe_name,
                add_to_path,
                desktop_shortcut,
                start_menu,
                scope,
                license_path,
                output_installer,
            ),
        ),
{
    let x = "!define MUI_ICON \""@ + forward_slashes(icon) + "\""@;
    let sec = nsis_icon_section(Some(icon));
    let rest = "\n!define MUI_UNICON \""@ + forward_slashes(icon) + "\"\n"@;
    reveal_strlit("\"\n!define MUI_UNICON \"");
    reveal_strlit("\"");
    reveal_strlit("\n!define MUI_UNICON \"");
    assert(sec =~= x + rest);
    assert(occurs_in(x, sec)) by {
        let z: int = 0;
        assert(sec.subrange(z, z + x.len()) =~= x);
    }
    lemma_occurs_grows(x);
}

/// With a licence file, the installer script shows the licence page:
/// `!insertmacro MUI_PAGE_LICENSE "<path>"`, the path with backslashes
/// turned to forward slashes.
pub proof fn lemma_script_shows_license(
    app_name: Seq<char>,
    app_version: Seq<char>,
    vendor: Seq<char>,
    icon_path: Option<Seq<char>>,
    staging_dir: Seq<char>,
    exe_name: Seq<char>,
    add_to_path: bool,
    desktop_shortcut: bool,
    start_menu: bool,
    scope: Seq<char>,
    license: Seq<char>,
    output_installer: Seq<char>,
)
    ensures
        occurs_in(
            "!insertmacro MUI_PAGE_LICENSE \""@ + forward_slashes(license) + "\""@,
            nsis_script_spec(
                app_name,
                app_version,
                vendor,
                icon_path,
                staging_dir,
                exe_name,
                add_to_path,
                desktop_shortcut,
                start_menu,
                scope,
                Some(license),
                output_installer,
            ),
        ),
{
    let x = "!insertmacro MUI_PAGE_LICENSE \""@ + forward_slashes(license) + "\""@;
    let sec = nsis_license_section(Some(license));
    reveal_strlit("\"\n");
    reveal_strlit("\"");
    reveal_strlit("\n");
    assert(sec =~= x + "\n"@);
    assert(occurs_in(x, sec)) by {
        let z: int = 0;
        assert(sec.subrange(z, z + x.len()) =~= x);
    }
    lemma_occurs_grows(x);
}

fn icon_section(icon_path: Option<&str>) -> (s: String)
    ensures
        s@ == nsis_icon_section(
            match icon_path {
                Some(i) => Some(i@),
                None => None,
            },
        ),
{
    let mut s = String::new();
    match icon_path {
        Some(i) => {
            let p = forward_slashes_exec(i);
            push_str(&mut s, "!define MUI_ICON \"");
            push_str(&mut s, p.as_str());
            push_str(&mut s, "\"\n!define MUI_UNICON \"");
            push_str(&mut s, p.as_str());
            push_str(&mut s, "\"\n");
        },
        None => {},
    }
    s
}

fn license_section(license_path: Option<&str>) -> (s: String)
    ensures
        s@ == nsis_license_section(
            match license_path {
                Some(i) => Some(i@),
                None => None,
            },
        ),
{
    let mut s = String::new();
    match license_path {
        Some(i) => {
            let p = forward_slashes_exec(i);
            push_str(&mut s, "!insertmacro MUI_PAGE_LICENSE \"");
            push_str(&mut s, p.as_str());
            push_str(&mut s, "\"\n");
        },
        None => {},
    }
    s
}

fn shortcuts(app_name: &str, exe_name: &str, start_menu: bool, desktop: bool) -> (s: String)
    ensures
        s@ == nsis_shortcuts(app_name@, exe_name@, start_menu, desktop),
{
    let mut s = String::new();
    if start_menu {
        push_str(&mut s, "    CreateDirectory \"$SMPROGRAMS\\");
        push_str(&mut s, app_name);
        push_str(&mut s, "\"\n    CreateShortCut \"$SMPROGRAMS\\");
        push_str(&mut s, app_name);
        push_str(&mut s, "\\");
        push_str(&mut s, app_name);
        push_str(&mut s, ".lnk\" \"$INSTDIR\\");
        push_str(&mut s, exe_name);
        push_str(&mut s, "\" \"\" \"$INSTDIR\\");
        push_str(&mut s, exe_name);
        push_str(&mut s, "\" 0\n    CreateShortCut \"$SMPROGRAMS\\");
        push_str(&mut s, app_name);
        push_str(&mut s, "\\Desinstalar ");
        push_str(&mut s, app_name);
        push_str(&mut s, ".lnk\" \"$INSTDIR\\uninstall.exe\" \"\" \"$INSTDIR\\uninstall.exe\" 0\n");
    }
    let ghost mid = s@;
    if desktop {
        push_str(&mut s, "    CreateShortCut \"$DESKTOP\\");
        push_str(&mut s, app_name);
        push_str(&mut s, ".lnk\" \"$INSTDIR\\");
        push_str(&mut s, exe_name);
        push_str(&mut s, "\" \"\" \"$INSTDIR\\");
        push_str(&mut s, exe_name);
        push_str(&mut s, "\" 0\n");
    }
    assert(s@ =~= nsis_shortcuts(app_name@, exe_name@, start_menu, desktop));
    s
}

fn uninstall_shortcuts(app_name: &str, start_menu: bool, desktop: bool) -> (s: String)
    ensures
        s@ == nsis_uninstall_shortcuts(app_name@, start_menu, desktop),
{
    let mut s = String::new();
    if start_menu {
        push_str(&mut s, "    Delete \"$SMPROGRAMS\\");
        push_str(&mut s, app_name);
        push_str(&mut s, "\\");
        push_str(&mut s, app_name);
        push_str(&mut s, ".lnk\"\n    Delete \"$SMPROGRAMS\\");
        push_str(&mut s, app_name);
        push_str(&mut s, "\\Desinstalar ");
        push_str(&mut s, app_name);
        push_str(&mut s, ".lnk\"\n    RMDir \"$SMPROGRAMS\\");
        push_str(&mut s, app_name);
        push_str(&mut s, "\"\n");
    }
    if desktop {
        push_str(&mut s, "    Delete \"$DESKTOP\\");
        push_str(&mut s, app_name);
        push_str(&mut s, ".lnk\"\n");
    }
    assert(s@ =~= nsis_uninstall_shortcuts(app_name@, start_menu, desktop));
    s
}

fn path_add(per_machine: bool) -> (s: String)
    ensures
        s@ == nsis_path_add(per_machine),
{
    let scope = if per_machine {
        "Sistema"
    } else {
        "Usuario"
    };
    let reg_root = if per_machine {
        "HKLM"
    } else {
        "HKCU"
    };
    let env_key = if per_machine {
        "SYSTEM\\CurrentControlSet\\Control\\Session Manager\\Environment"
    } else {
        "Environment"
    };
    let mut s = String::new();
    push_str(&mut s, "\n    ; Agregar al PATH (");
    push_str(&mut s, scope);
    push_str(&mut s, ")\n    DetailPrint \"Configurando variable de entorno PATH...\"\n    ReadRegStr $0 ");
    push_str(&mut s, reg_root);
    push_str(&mut s, " \"");
    push_str(&mut s, env_key);
    push_str(&mut s, "\" \"PATH\"\n    ${If} $0 == \"\"\n        WriteRegExpandStr ");
    push_str(&mut s, reg_root);
    push_str(&mut s, " \"");
    push_str(&mut s, env_key);
    push_str(&mut s, "\" \"PATH\" \"$INSTDIR\"\n    ${Else}\n        Push \"$0\"\n        Push \"$INSTDIR\"\n        Call StrContains\n        Pop $1\n        ${If} $1 == \"0\"\n            WriteRegExpandStr ");
    push_str(&mut s, reg_root);
    push_str(&mut s, " \"");
    push_str(&mut s, env_key);
    push_str(&mut s, "\" \"PATH\" \"$0;$INSTDIR\"\n        ${EndIf}\n    ${EndIf}\n    SendMessage ${HWND_BROADCAST} ${WM_SETTINGCHANGE} 0 \"STR:Environment\" /TIMEOUT=5000\n");
    assert(s@ =~= nsis_path_add(per_machine));
    s
}

fn path_remove(per_machine: bool) -> (s: String)
    ensures
        s@ == nsis_path_remove(per_machine),
{
    let scope = if per_machine {
        "Sistema"
    } else {
        "Usuario"
    };
    let reg_root = if per_machine {
        "HKLM"
    } else {
        "HKCU"
    };
    let env_key = if per_machine {
        "SYSTEM\\CurrentControlSet\\Control\\Session Manager\\Environment"
    } else {
        "Environment"
    };
    let mut s = String::new();
    push_str(&mut s, "\n    ; Remover del PATH (");
    push_str(&mut s, scope);
    push_str(&mut s, ")\n    DetailPrint \"Removiendo de la variable PATH...\"\n    ReadRegStr $0 ");
    push_str(&mut s, reg_root);
    push_str(&mut s, " \"");
    push_str(&mut s, env_key);
    push_str(&mut s, "\" \"PATH\"\n    Push \"$0\"\n    Push \"$INSTDIR;\"\n    Push \"\"\n    Call un.StrReplace\n    Pop $0\n\n    Push \"$0\"\n    Push \";$INSTDIR\"\n    Push \"\"\n    Call un.StrReplace\n    Pop $0\n\n    Push \"$0\"\n    Push \"$INSTDIR\"\n    Push \"\"\n    Call un.StrReplace\n    Pop $0\n\n    WriteRegExpandStr ");
    push_str(&mut s, reg_root);
    push_str(&mut s, " \"");
    push_str(&mut s, env_key);
    push_str(&mut s, "\" \"PATH\" \"$0\"\n    SendMessage ${HWND_BROADCAST} ${WM_SETTINGCHANGE} 0 \"STR:Environment\" /TIMEOUT=5000\n");
    assert(s@ =~= nsis_path_remove(per_machine));
    s
}

/// Generates the NSIS script that installs a Windows app image: install
/// directory, registry keys, optional shortcuts, optional `PATH` entry, and
/// the matching uninstaller.
pub fn generate_nsis_script(
    app_name: &str,
    app_version: &str,
    vendor: &str,
    icon_path: Option<&str>,
    staging_dir: &str,
    exe_name: &str,
    add_to_path: bool,
    desktop_shortcut: bool,
    start_menu: bool,
    scope: &str,
    license_path: Option<&str>,
    output_installer: &str,
) -> (s: String)
    ensures
        s@ == nsis_script_spec(
            app_name@,
            app_version@,
            vendor@,
            match icon_path {
                Some(i) => Some(i@),
                None => None,
            },
            staging_dir@,
            exe_name@,
            add_to_path,
            desktop_shortcut,
            start_menu,
            scope@,
            match license_path {
                Some(i) => Some(i@),
                None => None,
            },
            output_installer@,
        ),
{
    let scope_chars = chars_of(scope);
    let pmc = chars_of("per-machine");
    let adm = chars_of("admin");
    let pm = eq_ignore_ascii_case_exec(scope_chars.as_slice(), pmc.as_slice())
        || eq_ignore_ascii_case_exec(scope_chars.as_slice(), adm.as_slice());
    let exec_level = if pm {
        "admin"
    } else {
        "user"
    };
    let reg_root = if pm {
        "HKLM"
    } else {
        "HKCU"
    };
    let mut default_dir = if pm {
        "$PROGRAMFILES64\\".to_owned()
    } else {
        "$LOCALAPPDATA\\Programs\\".to_owned()
    };
    push_str(&mut default_dir, app_name);
    let staging_dir_str = forward_slashes_exec(staging_dir);
    let output_installer_str = forward_slashes_exec(output_installer);
    let icon_section = icon_section(icon_path);
    let license_section = license_section(license_path);
    let shortcuts_code = shortcuts(app_name, exe_name, start_menu, desktop_shortcut);
    let uninstall_shortcuts_code = uninstall_shortcuts(app_name, start_menu, desktop_shortcut);
    let path_add_code = if add_to_path {
        path_add(pm)
    } else {
        String::new()
    };
    let path_remove_code = if add_to_path {
        path_remove(pm)
    } else {
        String::new()
    };
    let mut s = String::new();
    push_str(&mut s, "; Script NSIS generado automáticamente por Jolt\nUnicode True\nSetCompressor /SOLID lzma\n\n!include \"MUI2.nsh\"\n!include \"LogicLib.nsh\"\n!include \"WinMessages.nsh\"\n\n!define PRODUCT_NAME \"");
    push_str(&mut s, app_name);
    push_str(&mut s, "\"\n!define PRODUCT_VERSION \"");
    push_str(&mut s, app_version);
    push_str(&mut s, "\"\n!define PRODUCT_PUBLISHER \"");
    push_str(&mut s, vendor);
    push_str(&mut s, "\"\n!define PRODUCT_DIR_REGKEY \"Software\\Microsoft\\Windows\\CurrentVersion\\App Paths\\");
    push_str(&mut s, exe_name);
    push_str(&mut s, "\"\n!define PRODUCT_UNINST_KEY \"Software\\Microsoft\\Windows\\CurrentVersion\\Uninstall\\${PRODUCT_NAME}\"\n!define PRODUCT_UNINST_ROOT_KEY \"");
    push_str(&mut s, reg_root);
    push_str(&mut s, "\"\n\nName \"${PRODUCT_NAME} v${PRODUCT_VERSION}\"\nOutFile \"");
    push_str(&mut s, output_installer_str.as_str());
    push_str(&mut s, "\"\nInstallDir \"");
    push_str(&mut s, default_dir.as_str());
    push_str(&mut s, "\"\nInstallDirRegKey ${PRODUCT_UNINST_ROOT_KEY} \"${PRODUCT_UNINST_KEY}\" \"UninstallString\"\nRequestExecutionLevel ");
    push_str(&mut s, exec_level);
    push_str(&mut s, "\n\n!define MUI_ABORTWARNING\n");
    push_str(&mut s, icon_section.as_str());
    push_str(&mut s, "\n\n!insertmacro MUI_PAGE_WELCOME\n");
    push_str(&mut s, license_section.as_str());
    push_str(&mut s, "!insertmacro MUI_PAGE_DIRECTORY\n!insertmacro MUI_PAGE_INSTFILES\n\n!define MUI_FINISHPAGE_TITLE \"Instalación completada\"\n!define MUI_FINISHPAGE_TEXT \"${PRODUCT_NAME} se ha instalado correctamente en su equipo.\"\n!insertmacro MUI_PAGE_FINISH\n\n!insertmacro MUI_UNPAGE_CONFIRM\n!insertmacro MUI_UNPAGE_INSTFILES\n!insertmacro MUI_UNPAGE_FINISH\n\n!insertmacro MUI_LANGUAGE \"Spanish\"\n!insertmacro MUI_LANGUAGE \"English\"\n\nFunction StrContains\n  Exch $1 ; needle\n  Exch\n  Exch $0 ; haystack\n  Push $2\n  Push $3\n  Push $4\n  StrCpy $2 -1\n  StrLen $3 $1\n  loop:\n    IntOp $2 $2 + 1\n    StrCpy $4 $0 $3 $2\n    StrCmp $4 \"\" notfound\n    StrCmp $4 $1 found\n    Goto loop\n  found:\n    StrCpy $0 \"1\"\n    Goto done\n  notfound:\n    StrCpy $0 \"0\"\n  done:\n    Pop $4\n    Pop $3\n    Pop $2\n    Pop $1\n    Exch $0\nFunctionEnd\n\nFunction un.StrReplace\n  Exch $2 ; replacement\n  Exch 1\n  Exch $1 ; to replace\n  Exch 2\n  Exch $0 ; original\n  Push $3\n  Push $4\n  Push $5\n  Push $6\n  Push $7\n  StrLen $4 $1\n  StrCpy $7 \"\"\n  loop:\n    StrCpy $3 $0 $4\n    StrCmp $3 $1 match\n    StrCmp $0 \"\" done\n    StrCpy $5 $0 1\n    StrCpy $7 \"$7$5\"\n    StrCpy $0 $0 \"\" 1\n    Goto loop\n  match:\n    StrCpy $7 \"$7$2\"\n    StrCpy $0 $0 \"\" $4\n    Goto loop\n  done:\n    StrCpy $0 $7\n    Pop $7\n    Pop $6\n    Pop $5\n    Pop $4\n    Pop $3\n    Pop $2\n    Pop $1\n    Exch $0\nFunctionEnd\n\nSection \"MainSection\" SEC01\n    SetOutPath \"$INSTDIR\"\n    File /r \"");
    push_str(&mut s, staging_dir_str.as_str());
    push_str(&mut s, "\\*.*\"\n    \n    WriteUninstaller \"$INSTDIR\\uninstall.exe\"\n    \n");
    push_str(&mut s, shortcuts_code.as_str());
    push_str(&mut s, "\n    WriteRegStr ${PRODUCT_UNINST_ROOT_KEY} \"${PRODUCT_UNINST_KEY}\" \"DisplayName\" \"${PRODUCT_NAME}\"\n    WriteRegStr ${PRODUCT_UNINST_ROOT_KEY} \"${PRODUCT_UNINST_KEY}\" \"UninstallString\" \"$\\\"$INSTDIR\\uninstall.exe$\\\"\"\n    WriteRegStr ${PRODUCT_UNINST_ROOT_KEY} \"${PRODUCT_UNINST_KEY}\" \"DisplayIcon\" \"$\\\"$INSTDIR\\");
    push_str(&mut s, exe_name);
    push_str(&mut s, "$\\\"\"\n    WriteRegStr ${PRODUCT_UNINST_ROOT_KEY} \"${PRODUCT_UNINST_KEY}\" \"DisplayVersion\" \"${PRODUCT_VERSION}\"\n    WriteRegStr ${PRODUCT_UNINST_ROOT_KEY} \"${PRODUCT_UNINST_KEY}\" \"Publisher\" \"${PRODUCT_PUBLISHER}\"\n    WriteRegStr ${PRODUCT_UNINST_ROOT_KEY} \"${PRODUCT_UNINST_KEY}\" \"InstallLocation\" \"$INSTDIR\"\n    WriteRegStr ${PRODUCT_UNINST_ROOT_KEY} \"${PRODUCT_DIR_REGKEY}\" \"\" \"$\\\"$INSTDIR\\");
    push_str(&mut s, exe_name);
    push_str(&mut s, "$\\\"\"\n");
    push_str(&mut s, path_add_code.as_str());
    push_str(&mut s, "\nSectionEnd\n\nSection \"Uninstall\"\n");
    push_str(&mut s, path_remove_code.as_str());
    push_str(&mut s, "\n");
    push_str(&mut s, uninstall_shortcuts_code.as_str());
    push_str(&mut s, "\n    DeleteRegKey ${PRODUCT_UNINST_ROOT_KEY} \"${PRODUCT_UNINST_KEY}\"\n    DeleteRegKey ${PRODUCT_UNINST_ROOT_KEY} \"${PRODUCT_DIR_REGKEY}\"\n    RMDir /r \"$INSTDIR\"\nSectionEnd\n");
    s
}

} // verus!
