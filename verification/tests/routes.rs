use deport::routes::{Route, RouteManager, HOSTNAME_NOT_FOUND};
use std::collections::HashMap;

#[test]
fn test_new_route_manager_is_empty() {
    let manager = RouteManager::new();
    assert!(manager.list().is_empty());
}

#[test]
fn test_insert_and_get_route() {
    let mut manager = RouteManager::new();
    let route1 = Route { port: 8080, pid: 1234 };
    let hostname1 = String::from("localhost");

    manager.insert(hostname1.clone(), route1.clone());

    let retrieved_route = manager.get(hostname1.as_str()).expect("Route should be found");
    assert_eq!(retrieved_route, route1);

    let non_existent_route = manager.get("nonexistent.com");
    assert!(non_existent_route.is_none());
}

#[test]
fn test_list_routes() {
    let mut manager = RouteManager::new();
    let route1 = Route { port: 8080, pid: 1 };
    let route2 = Route { port: 9090, pid: 2 };
    let hostname2 = String::from("host2.local");
    let hostname1 = String::from("host1.local");

    manager.insert(hostname1.clone(), route1.clone());
    manager.insert(hostname2.clone(), route2.clone());

    let routes_list = manager.list();
    assert_eq!(routes_list.len(), 2);

    let mut routes_map: HashMap<String, Route> = routes_list.into_iter().collect();

    assert_eq!(routes_map.remove(hostname1.as_str()).unwrap(), route1);
    assert_eq!(routes_map.remove(hostname2.as_str()).unwrap(), route2);
    assert!(routes_map.is_empty());
}

#[test]
fn test_update_route() {
    let mut manager = RouteManager::new();
    let initial_route = Route { port: 8080, pid: 1234 };
    let hostname = String::from("test.com");

    manager.insert(hostname.clone(), initial_route);

    let updated_route = Route { port: 8081, pid: 9999 };
    let result = manager.update(hostname.as_str(), updated_route.clone());
    assert!(result.is_ok());

    let retrieved_route = manager.get(hostname.as_str()).expect("Updated route should be found");
    assert_eq!(retrieved_route, updated_route);

    let non_existent_update_result = manager.update("nonexistent.com", Route { port: 1000, pid: 0 });
    assert!(non_existent_update_result.is_err());
    assert_eq!(non_existent_update_result.unwrap_err(), "Hostname not found");
}

#[test]
fn test_remove_route() {
    let mut manager = RouteManager::new();
    let route1 = Route { port: 8080, pid: 1234 };
    let hostname1 = String::from("localhost");

    manager.insert(hostname1.clone(), route1);
    assert!(manager.get(hostname1.as_str()).is_some());
    assert_eq!(manager.list().len(), 1);

    manager.remove(hostname1.as_str());
    assert!(manager.get(hostname1.as_str()).is_none());
    assert!(manager.list().is_empty());

    manager.remove("nonexistent.com");
    assert!(manager.list().is_empty());
}

#[test]
fn tryout_original() {
    let mut manager = RouteManager::new();

    let route1 = Route { port: 8080, pid: 1234 };
    let route2 = Route { port: 9090, pid: 5678 };

    manager.insert(String::from("localhost"), route1);
    manager.insert(String::from("example.com"), route2);

    if let Some(route) = manager.get("localhost") {
        assert_eq!(route, Route { port: 8080, pid: 1234 });
        println!("Route for localhost: {:?}", route);
    }

    let updated_route = Route { port: 8081, pid: 9999 };
    match manager.update("localhost", updated_route.clone()) {
        Ok(()) => println!("Updated route: {:?}", updated_route),
        Err(err) => println!("Error: {}", err),
    }

    assert!(manager.get("localhost").unwrap() == Route { port: 8081, pid: 9999 });
}

#[test]
fn insert_replaces_existing_route() {
    let mut manager = RouteManager::new();
    manager.insert(String::from("app.localhost"), Route { port: 3000, pid: 10 });
    manager.insert(String::from("app.localhost"), Route { port: 4000, pid: 11 });
    assert_eq!(manager.list().len(), 1);
    assert_eq!(manager.get("app.localhost"), Some(Route { port: 4000, pid: 11 }));
}

#[test]
fn insert_keeps_other_routes() {
    let mut manager = RouteManager::new();
    manager.insert(String::from("a.localhost"), Route { port: 3000, pid: 1 });
    manager.insert(String::from("b.localhost"), Route { port: 3001, pid: 2 });
    assert_eq!(manager.get("a.localhost"), Some(Route { port: 3000, pid: 1 }));
}

#[test]
fn failed_update_changes_nothing() {
    let mut manager = RouteManager::new();
    manager.insert(String::from("a.localhost"), Route { port: 3000, pid: 1 });
    assert_eq!(manager.update("b.localhost", Route { port: 1, pid: 1 }), Err(HOSTNAME_NOT_FOUND));
    assert_eq!(manager.list().len(), 1);
    assert!(manager.get("b.localhost").is_none());
}
