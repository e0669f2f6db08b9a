use shadowrocket::variant::{ClashCore, ConfigType};

#[test]
fn names_of_the_variants() {
    assert_eq!(ClashCore::Mihomo.name(), "mihomo");
    assert_eq!(ClashCore::MihomoAlpha.name(), "mihomo-alpha");
    assert_eq!(ClashCore::from_name("mihomo"), Some(ClashCore::Mihomo));
    assert_eq!(ClashCore::from_name("clash-meta"), Some(ClashCore::Mihomo));
    assert_eq!(ClashCore::from_name("mihomo-alpha"), Some(ClashCore::MihomoAlpha));
    assert_eq!(ClashCore::from_name("clash"), None);
    assert_eq!(ClashCore::from_name(""), None);
    assert_eq!(ClashCore::from_name("Mihomo"), None);
}

#[test]
fn name_leads_back_to_the_variant() {
    for core in [ClashCore::Mihomo, ClashCore::MihomoAlpha] {
        assert_eq!(ClashCore::from_name(core.name()), Some(core));
    }
}

#[test]
fn default_variant_is_the_alpha_channel() {
    assert_eq!(ClashCore::default(), ClashCore::MihomoAlpha);
}

#[test]
fn arguments_of_an_invocation() {
    assert_eq!(
        ClashCore::args(ConfigType::Run, "/home/u/.config/app", "/tmp/run.yaml"),
        vec!["-m", "-d", "/home/u/.config/app", "-f", "/tmp/run.yaml"]
    );
    assert_eq!(
        ClashCore::args(ConfigType::Check, "dir", "check.yaml"),
        vec!["-t", "-d", "dir", "-f", "check.yaml"]
    );
}
