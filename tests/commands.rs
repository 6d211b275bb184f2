use nixvault::commands::{fetch_expression, fetched_path, manifest_command, manifest_path, query_command};

#[test]
fn fetch_expression_text() {
    assert_eq!(
        fetch_expression("https://github.com/NixOS/nixpkgs.git", "nixos-unstable"),
        "builtins.fetchGit { url = \"https://github.com/NixOS/nixpkgs.git\"; ref = \"nixos-unstable\"; }"
    );
}

#[test]
fn fetched_path_from_eval_output() {
    assert_eq!(fetched_path("\"/nix/store/abc-source\"\n"), "/nix/store/abc-source");
    assert_eq!(fetched_path("  /nix/store/x  "), "/nix/store/x");
    assert_eq!(fetched_path("\"\""), "");
    assert_eq!(fetched_path(""), "");
}

#[test]
fn command_texts() {
    assert_eq!(
        query_command("/nix/store/src", "hello"),
        "timeout 30s nix derivation show /nix/store/src#hello 2>/dev/null || echo '{}'"
    );
    assert_eq!(
        manifest_command("/p", "out"),
        "nix-env -f /p -qa --meta --json --show-trace --arg config 'import /p/pkgs/top-level/packages-config.nix' | jq -c '{\"version\":2,\"packages\":.}' > out/packages.json"
    );
    assert_eq!(manifest_path("out"), "out/packages.json");
}

#[test]
fn fetched_path_trims_unicode_white_space() {
    assert_eq!(fetched_path("\u{c}\"a\""), "a");
    assert_eq!(fetched_path("\u{a0}\"/nix/store/s\"\u{85}\n"), "/nix/store/s");
}
