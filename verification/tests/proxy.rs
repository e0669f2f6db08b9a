use shadowrocket::proxy::{
    get_current_clash_mode, get_self_proxy, get_system_proxy, system_proxy_url, tun_device_ip,
    ProxyError, SystemProxy,
};
use shadowrocket::yaml::{Mapping, Yaml};

#[test]
fn self_proxy_prefers_the_port_of_the_settings() {
    assert_eq!(get_self_proxy(Some(7891), 7890), "http://127.0.0.1:7891");
    assert_eq!(get_self_proxy(None, 7890), "http://127.0.0.1:7890");
    assert_eq!(get_self_proxy(Some(0), 65535), "http://127.0.0.1:0");
    assert_eq!(get_self_proxy(None, 65535), "http://127.0.0.1:65535");
}

#[test]
fn system_proxy_is_given_only_when_enabled() {
    let on = SystemProxy { enable: true, host: String::from("10.0.0.2"), port: 3128 };
    assert_eq!(system_proxy_url(&on), Some(String::from("http://10.0.0.2:3128")));
    let off = SystemProxy { enable: false, host: String::from("10.0.0.2"), port: 3128 };
    assert_eq!(system_proxy_url(&off), None);
    let empty = SystemProxy { enable: true, host: String::new(), port: 80 };
    assert_eq!(system_proxy_url(&empty), Some(String::from("http://:80")));
}

#[test]
fn system_proxy_of_this_machine() {
    match get_system_proxy() {
        Ok(Some(url)) => assert!(url.starts_with("http://")),
        Ok(None) => {}
        Err(ProxyError::Unreadable(why)) => assert!(!why.is_empty()),
    }
}

#[test]
fn mode_defaults_to_rule() {
    let mut config = Mapping::new();
    assert_eq!(get_current_clash_mode(&config), "rule");
    config.insert(String::from("mode"), Yaml::Text(String::from("global")));
    assert_eq!(get_current_clash_mode(&config), "global");
    config.insert(String::from("mode"), Yaml::Number(String::from("1")));
    assert_eq!(get_current_clash_mode(&config), "rule");
    config.insert(String::from("mode"), Yaml::Null);
    assert_eq!(get_current_clash_mode(&config), "rule");
    config.insert(String::from("mode"), Yaml::Text(String::new()));
    assert_eq!(get_current_clash_mode(&config), "");
}

#[test]
fn tunnel_device_follows_the_fake_ip_range() {
    let mut config = Mapping::new();
    assert_eq!(tun_device_ip(&config), "198.18.0.2");
    config.insert(String::from("dns"), Yaml::Text(String::from("x")));
    assert_eq!(tun_device_ip(&config), "198.18.0.2");
    let mut dns = Mapping::new();
    config.insert(String::from("dns"), Yaml::Mapping(dns.clone()));
    assert_eq!(tun_device_ip(&config), "");
    dns.insert(String::from("fake-ip-range"), Yaml::Text(String::from("198.18.0.1/16")));
    config.insert(String::from("dns"), Yaml::Mapping(dns.clone()));
    assert_eq!(tun_device_ip(&config), "198.18.0.2");
    dns.insert(String::from("fake-ip-range"), Yaml::Text(String::from("10.0.0.1/8")));
    config.insert(String::from("dns"), Yaml::Mapping(dns.clone()));
    assert_eq!(tun_device_ip(&config), "10.0.0.1/8");
    dns.insert(String::from("fake-ip-range"), Yaml::Number(String::from("1")));
    config.insert(String::from("dns"), Yaml::Mapping(dns));
    assert_eq!(tun_device_ip(&config), "");
}

#[test]
fn mode_is_read_through_tags() {
    let mut config = Mapping::new();
    config.insert(
        String::from("mode"),
        Yaml::Tagged(String::from("!m"), Box::new(Yaml::Tagged(String::from("!n"), Box::new(Yaml::Text(String::from("direct")))))),
    );
    assert_eq!(get_current_clash_mode(&config), "direct");
    config.insert(String::from("mode"), Yaml::Tagged(String::from("!m"), Box::new(Yaml::Bool(true))));
    assert_eq!(get_current_clash_mode(&config), "rule");
    let config = shadowrocket::yaml_text::read_mapping("mode: !m global").unwrap();
    assert_eq!(get_current_clash_mode(&config), "global");
}
