use swelearn::modules::all_modules;

#[test]
fn all_modules_listed() {
    assert_eq!(all_modules().len(), 6);
    assert_eq!(all_modules()[0].name, "Cloud Architecture");
    assert_eq!(all_modules()[1].name, "System Design Questions");
    assert_eq!(all_modules()[5].name, "DevOps & CI/CD");
    assert_eq!(all_modules()[3].description, "HTTP, TCP/IP, DNS, CDNs, and load balancing");
}
