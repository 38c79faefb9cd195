//! The API reference page.
use vstd::prelude::*;
use crate::text::{chars_of, string_of};

verus! {

/// The page that shows the API reference with Swagger UI
/// (`SwaggerUIBundle`), loading the description from
/// `/api-docs/openapi.json`.
pub const API_REFERENCE_PAGE: &'static str = r##"<!doctype html>
<html>
  <head>
    <title>API Reference</title>
    <meta charset="utf-8" />
    <meta name="viewport" content="width=device-width, initial-scale=1" />
    <link rel="stylesheet" href="https://unpkg.com/swagger-ui-dist@5/swagger-ui.css" />
  </head>
  <body>
    <div id="swagger-ui"></div>
    <script src="https://unpkg.com/swagger-ui-dist@5/swagger-ui-bundle.js"></script>
    <script>
      window.ui = SwaggerUIBundle({
        url: "/api-docs/openapi.json",
        dom_id: "#swagger-ui",
      });
    </script>
  </body>
</html>"##;

/// The HTML of the API reference page.
pub fn serve_swagger_ui() -> (r: String)
    ensures
        r@ == API_REFERENCE_PAGE@,
{
    string_of(&chars_of(API_REFERENCE_PAGE))
}

} // verus!
