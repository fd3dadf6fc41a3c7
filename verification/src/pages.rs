//! Bodies of the fixed routes and catchers.
//!
//! These return the text each route serves; the HTTP layer wraps them
//! with the right content type and status.

use vstd::prelude::*;

verus! {

/// Body of the not-found catcher.
pub fn not_found() -> (r: &'static str)
    ensures
        r@ == "Nothing here, sorry!"@,
{
    "Nothing here, sorry!"
}

/// Body of the server-error catcher.
pub fn just_500() -> (r: &'static str)
    ensures
        r@ == "Whoops!?"@,
{
    "Whoops!?"
}

/// Body of the HTML index page.
pub fn index() -> (r: &'static str)
    ensures
        r@ == spec_index_page(),
{
    "<!DOCTYPE html>
<html>
<head><title>Temperature convertor</title></head>
<body>
<h1>Temperature convertor</h1>
<p>GET /&lt;from&gt;/&lt;to&gt;/&lt;value&gt; converts a temperature,
where the scales are one of 'celsius', 'farenheit' or 'kelvin'
(or 'c', 'f', 'k').</p>
<p>See <a href=\"/textonlyindex\">the text-only index</a> for details.</p>
</body>
</html>
"
}

/// What `index` serves.
pub open spec fn spec_index_page() -> Seq<char> {
    "<!DOCTYPE html>
<html>
<head><title>Temperature convertor</title></head>
<body>
<h1>Temperature convertor</h1>
<p>GET /&lt;from&gt;/&lt;to&gt;/&lt;value&gt; converts a temperature,
where the scales are one of 'celsius', 'farenheit' or 'kelvin'
(or 'c', 'f', 'k').</p>
<p>See <a href=\"/textonlyindex\">the text-only index</a> for details.</p>
</body>
</html>
"@
}

/// Body of the text-only index page.
pub fn index_as_text() -> (r: &'static str)
    ensures
        r@ == spec_index_text(),
{
    "Hello.  Welcome to the least user-friendly temperature convertor on the web.

    GET /ftoc/<farenheit> - returns temperature in Celsius

    GET /ctof/<celsuis> - returns temperature in Farenheit

    Now with a different api and added support for converting kelvin!

    GET /<from>/<to>/<from_value>

    where <from> and <to> must be exactly one of 'celsius', 'farenheit' or 'kelvin'
    (or 'c', 'f', 'k' if you don't like typing)
    and <from_value> is the known temperature (may contain a decimal point)

    Example:

    /farenheit/celsius/451

    And finally it will refuse if you ask it to convert a temperature that is below absolute zero.

    Use at your own risk.  Enjoy!"
}

/// What `index_as_text` serves.
pub open spec fn spec_index_text() -> Seq<char> {
    "Hello.  Welcome to the least user-friendly temperature convertor on the web.

    GET /ftoc/<farenheit> - returns temperature in Celsius

    GET /ctof/<celsuis> - returns temperature in Farenheit

    Now with a different api and added support for converting kelvin!

    GET /<from>/<to>/<from_value>

    where <from> and <to> must be exactly one of 'celsius', 'farenheit' or 'kelvin'
    (or 'c', 'f', 'k' if you don't like typing)
    and <from_value> is the known temperature (may contain a decimal point)

    Example:

    /farenheit/celsius/451

    And finally it will refuse if you ask it to convert a temperature that is below absolute zero.

    Use at your own risk.  Enjoy!"@
}

/// Body of the loot-game page: loads the game's script.
pub fn loot_index() -> (r: &'static str)
    ensures
        r@ == spec_loot_index_page(),
{
    "<!DOCTYPE html>
<html>
<head><title>Loot</title></head>
<body>
<script src=\"/loot_tables.js\"></script>
</body>
</html>
"
}

/// What `loot_index` serves.
pub open spec fn spec_loot_index_page() -> Seq<char> {
    "<!DOCTYPE html>
<html>
<head><title>Loot</title></head>
<body>
<script src=\"/loot_tables.js\"></script>
</body>
</html>
"@
}

/// Body of the loot-game script route: instantiates the game's
/// WebAssembly module.
pub fn loot_js() -> (r: &'static str)
    ensures
        r@ == spec_loot_js(),
{
    "fetch('/loot_tables_bg.wasm')
    .then(r => r.arrayBuffer())
    .then(b => WebAssembly.instantiate(b))
    .then(m => m.instance.exports.main());
"
}

/// What `loot_js` serves.
pub open spec fn spec_loot_js() -> Seq<char> {
    "fetch('/loot_tables_bg.wasm')
    .then(r => r.arrayBuffer())
    .then(b => WebAssembly.instantiate(b))
    .then(m => m.instance.exports.main());
"@
}

/// What `loot_wasm` serves: the WebAssembly preamble (magic and
/// version), an empty module.
pub open spec fn spec_loot_wasm() -> Seq<u8> {
    seq![0x00u8, 0x61u8, 0x73u8, 0x6du8, 0x01u8, 0x00u8, 0x00u8, 0x00u8]
}

/// Body of the WebAssembly asset route.
pub fn loot_wasm() -> (r: Vec<u8>)
    ensures
        r@ == spec_loot_wasm(),
{
    let mut v: Vec<u8> = Vec::new();
    v.push(0x00);
    v.push(0x61);
    v.push(0x73);
    v.push(0x6d);
    v.push(0x01);
    v.push(0x00);
    v.push(0x00);
    v.push(0x00);
    proof {
        assert(v@ =~= spec_loot_wasm());
    }
    v
}

} // verus!
