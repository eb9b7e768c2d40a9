# platform_admin

The decision logic of the Atlas platform's operator console, as a verified
library. Every function in `src/` carries a contract; Verus proves each one
except those of the few functions marked `#[verifier::external_body]`, which
make the calls into `serde_json`, `uuid`, `chrono`, `urlencoding` and std
(`String::push`, `str::to_lowercase`, `str::to_uppercase`). Their contracts,
and the names of what they return (`pub uninterp spec fn`), are trusted.

- `text`, `json`, `select`, `ids`, `timestamps`: strings, JSON documents,
  ordered selections, UUIDs (through the `uuid` crate) and UTC time stamps
  (through `chrono`).
- `blocks`, `hero`, `sections`, `landing`: the landing-page editor and list.
- `campaigns`, `ambassadors`: marketing campaigns, mail drops, attribution and
  ambassadors.
- `audit`: the audit ledger's categories, filters, counts and day groups.
- `products`, `product_page`: slugs, the catalog and the product page.
- `menus`, `tenant_map`, `network_wizard`, `network_detail`, `network_pages`,
  `system_status`, `access`: the remaining pages.
- `notice`: the toasts the pages show.

The pages' buttons are described as steps: a function from the page's state
and the press to the request sent and the state while it runs, and one from
that state and the service's answer to the state afterwards and the toast.

`app/` holds what the library does not: conversions to and from
`serde_json::Value`, floating-point number formatting, the map's JavaScript
bridge and the clipboard.
