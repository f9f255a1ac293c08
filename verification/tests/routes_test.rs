use rs_backend::routes::{config_routes, Handler, Method, Route};

#[test]
fn the_table_holds_the_five_routes() {
    let table = config_routes();
    assert_eq!(table.scope, "/users");
    assert_eq!(
        table.scoped,
        vec![
            Route { method: Method::Post, pattern: "", handler: Handler::CreateUser },
            Route { method: Method::Get, pattern: "/{id}", handler: Handler::GetUser },
            Route { method: Method::Put, pattern: "/{id}", handler: Handler::UpdateUser },
            Route { method: Method::Delete, pattern: "/{id}", handler: Handler::DeleteUser },
        ]
    );
    assert_eq!(
        table.root,
        vec![Route { method: Method::Get, pattern: "/", handler: Handler::Index }]
    );
}
