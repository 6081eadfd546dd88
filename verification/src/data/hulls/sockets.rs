use vstd::prelude::*;
use crate::data::Direction;
use crate::data::hulls::HullKey;
use crate::data::components::ComponentKind;
use crate::format::key::Key;
use crate::utils::Size;

verus! {

/// A socket of a hull: its key, the kind of component it takes (mount,
/// compartment or module), its size, and the direction a mount faces, where
/// it is known.
#[derive(Debug, Clone, Copy, PartialEq, Eq)]
pub struct HullSocketInfo {
    pub save_key: Key,
    pub kind: ComponentKind,
    pub size: Size,
    pub direction: Option<Direction>,
}

/// A hull socket as plain values.
pub open spec fn hull_socket_view(s: HullSocketInfo) -> (u128, ComponentKind, Size, Option<Direction>) {
    (s.save_key@, s.kind, s.size, s.direction)
}

impl HullKey {
    /// The sockets of this hull, in order, as plain values (mounts facing
    /// their directions, then compartments, then modules, as the game lists
    /// them).
    pub open spec fn spec_sockets(self) -> Seq<(u128, ComponentKind, Size, Option<Direction>)> {
        match self {
            HullKey::SprinterCorvette => seq![
                (0xc03b119cbe672a4c98bca803e9570f1eu128, ComponentKind::Mount, Size { x: 3, y: 4, z: 5 }, Some(Direction::Down)),
                (0x678f28b7f7507e459be805588da33f80u128, ComponentKind::Mount, Size { x: 3, y: 2, z: 3 }, Some(Direction::Down)),
                (0x21474d495666d84bbd9f71791e74809eu128, ComponentKind::Mount, Size { x: 2, y: 2, z: 2 }, Some(Direction::Right)),
                (0x67163d38d633f344a22cd48e6ef8cdcdu128, ComponentKind::Mount, Size { x: 2, y: 2, z: 2 }, Some(Direction::Left)),
                (0x5cf6980a306a744a81c4422c54b3f4a0u128, ComponentKind::Compartment, Size { x: 4, y: 1, z: 8 }, None),
                (0xc5160892fb2c77498f63754882b9d0e4u128, ComponentKind::Compartment, Size { x: 4, y: 1, z: 6 }, None),
                (0xad73bcc701b5324ab323fda953e3bfa9u128, ComponentKind::Compartment, Size { x: 3, y: 1, z: 3 }, None),
                (0x19e7eac02433834a970371054660ed3fu128, ComponentKind::Compartment, Size { x: 3, y: 1, z: 3 }, None),
                (0xe16a49ca238a544a82c11f7d978ecc90u128, ComponentKind::Module, Size { x: 3, y: 3, z: 3 }, None),
                (0xe041f1e264213548be5aeb90b501797cu128, ComponentKind::Module, Size { x: 8, y: 3, z: 6 }, None),
                (0x4d23cf5bd1027b4ebe306cd1d62d16bdu128, ComponentKind::Module, Size { x: 2, y: 2, z: 2 }, None),
                (0x3013af19ace3e945a9b7638ecb8e2cefu128, ComponentKind::Module, Size { x: 2, y: 2, z: 2 }, None),
            ],
            HullKey::RainesFrigate => seq![
                (0x3c32a619fbe9ca43837375c70d0ed607u128, ComponentKind::Mount, Size { x: 3, y: 4, z: 3 }, Some(Direction::Up)),
                (0x5b0306a98894ec4ea5a7b203e3ba61a8u128, ComponentKind::Mount, Size { x: 3, y: 4, z: 3 }, Some(Direction::Down)),
                (0x8247c8c18ce7ee41a11ba316f6ec419bu128, ComponentKind::Mount, Size { x: 3, y: 4, z: 5 }, Some(Direction::Up)),
                (0x0f7ce80743deb440bdef7894724fe635u128, ComponentKind::Mount, Size { x: 3, y: 4, z: 5 }, Some(Direction::Down)),
                (0xf7c37e608ff55943acfbea8f625b7eeeu128, ComponentKind::Compartment, Size { x: 4, y: 1, z: 6 }, None),
                (0xe93ce8ef6ebc304aa0c85c671af2ca52u128, ComponentKind::Compartment, Size { x: 4, y: 1, z: 6 }, None),
                (0x3bf63e00973baf46a53a0dfaaef63a31u128, ComponentKind::Compartment, Size { x: 3, y: 1, z: 3 }, None),
                (0xe403ce0f851f4a419d926f5659d02f2cu128, ComponentKind::Compartment, Size { x: 3, y: 1, z: 3 }, None),
                (0x968ac04c58644e47994184e160e1daceu128, ComponentKind::Compartment, Size { x: 4, y: 1, z: 6 }, None),
                (0x6d181495aa102744bb33dd7332974074u128, ComponentKind::Module, Size { x: 6, y: 6, z: 6 }, None),
                (0x266b67c28d0a4248b943210f3e5047acu128, ComponentKind::Module, Size { x: 8, y: 3, z: 6 }, None),
                (0x578dad5e26c84747b8bbaae22076193bu128, ComponentKind::Module, Size { x: 2, y: 2, z: 2 }, None),
                (0xa7e9bb8a34baba4baacee053e4d13f94u128, ComponentKind::Module, Size { x: 2, y: 2, z: 2 }, None),
                (0x7e802933ce214f41a9130e06685bf7f3u128, ComponentKind::Module, Size { x: 3, y: 3, z: 3 }, None),
            ],
            HullKey::KeystoneDestroyer => seq![
                (0x369618024039674b801253a30e0dd16au128, ComponentKind::Mount, Size { x: 3, y: 4, z: 5 }, Some(Direction::Up)),
                (0x7d262fe23e7e78439bc09115868052beu128, ComponentKind::Mount, Size { x: 3, y: 4, z: 5 }, Some(Direction::Down)),
                (0xc76d6c69db61804d85b4359224a20d19u128, ComponentKind::Mount, Size { x: 3, y: 4, z: 4 }, Some(Direction::Left)),
                (0x2312b0a58e5df4489c611453327f3157u128, ComponentKind::Mount, Size { x: 3, y: 4, z: 4 }, Some(Direction::Right)),
                (0x269394f4c8165c499f2dc42800ae28b4u128, ComponentKind::Mount, Size { x: 2, y: 2, z: 2 }, Some(Direction::Up)),
                (0x2c2a2c45b95d7540a33e881e27979278u128, ComponentKind::Mount, Size { x: 2, y: 2, z: 2 }, Some(Direction::Down)),
                (0x8467a277dca4f341aa20de48525a7c6bu128, ComponentKind::Mount, Size { x: 4, y: 12, z: 4 }, Some(Direction::Fore)),
                (0x3e5c9a09c8c3a34aaed79e49219826e8u128, ComponentKind::Compartment, Size { x: 6, y: 1, z: 8 }, None),
                (0xcad446cbce17fe45b5a1d1d80812020du128, ComponentKind::Compartment, Size { x: 6, y: 1, z: 8 }, None),
                (0xc8cdc09b83eac943880724caccceac3cu128, ComponentKind::Compartment, Size { x: 6, y: 1, z: 4 }, None),
                (0x1f57a40b6fbd734d95c8d5d8e0878b60u128, ComponentKind::Compartment, Size { x: 6, y: 1, z: 4 }, None),
                (0x967e5cfd9bdd09448c55664bffe9b7cbu128, ComponentKind::Compartment, Size { x: 6, y: 1, z: 4 }, None),
                (0x1fea000496d8c34aa029de10cd4d1668u128, ComponentKind::Compartment, Size { x: 6, y: 1, z: 4 }, None),
                (0xb4204475c214864e802fe5fab02ba3b1u128, ComponentKind::Compartment, Size { x: 6, y: 1, z: 4 }, None),
                (0x01662f414676ea4db4c873ab5502a0e9u128, ComponentKind::Module, Size { x: 6, y: 6, z: 6 }, None),
                (0xb661d3cfa1e4ac4f9152d37de16ea5c9u128, ComponentKind::Module, Size { x: 8, y: 8, z: 6 }, None),
                (0x9b92758d074e7d428cf6becd66332928u128, ComponentKind::Module, Size { x: 3, y: 3, z: 3 }, None),
                (0x876f5348d191a349bf0e6791af606a0fu128, ComponentKind::Module, Size { x: 3, y: 3, z: 3 }, None),
                (0x13db0c084aae564f8d363e6178698895u128, ComponentKind::Module, Size { x: 2, y: 2, z: 2 }, None),
                (0x831d9429eb4a5949b905f661883e6985u128, ComponentKind::Module, Size { x: 2, y: 2, z: 2 }, None),
                (0x6494e66c6763024f9710a8a12181c4bbu128, ComponentKind::Module, Size { x: 3, y: 3, z: 3 }, None),
            ],
            HullKey::VauxhallLightCruiser => seq![
                (0x4fd11ba38d620347815cd631f2eca2b3u128, ComponentKind::Mount, Size { x: 3, y: 4, z: 5 }, Some(Direction::Up)),
                (0xd9041dc42e1413428e338dabf36f844du128, ComponentKind::Mount, Size { x: 3, y: 4, z: 5 }, Some(Direction::Down)),
                (0x20528cf44d386946874b422834331284u128, ComponentKind::Mount, Size { x: 3, y: 4, z: 5 }, Some(Direction::Up)),
                (0xad7ea17aced4aa4c878c4c8a6c56964du128, ComponentKind::Mount, Size { x: 3, y: 4, z: 5 }, Some(Direction::Up)),
                (0x051330baeb0a0b4d98adb15746bacdccu128, ComponentKind::Mount, Size { x: 3, y: 4, z: 5 }, Some(Direction::Up)),
                (0xbced683e1952b948a1fdc740664dc7aau128, ComponentKind::Mount, Size { x: 3, y: 4, z: 5 }, Some(Direction::Down)),
                (0x44b1d05057f6d34b8b663297e5ac6433u128, ComponentKind::Mount, Size { x: 2, y: 2, z: 2 }, Some(Direction::Right)),
                (0xbb23c3834b43dd4e982b3d7c6d57643eu128, ComponentKind::Mount, Size { x: 2, y: 2, z: 2 }, Some(Direction::Left)),
                (0x5e271fd134fba44685cbfc75ba4eee79u128, ComponentKind::Mount, Size { x: 2, y: 2, z: 2 }, Some(Direction::Right)),
                (0x5d38351f53e8a64bb98315bcb1e8b95du128, ComponentKind::Mount, Size { x: 2, y: 2, z: 2 }, Some(Direction::Left)),
                (0x6bc1feacfc954a4eae04eacfee541850u128, ComponentKind::Compartment, Size { x: 6, y: 1, z: 8 }, None),
                (0x3416e7a477e90d4492e9b3600e54a3cfu128, ComponentKind::Compartment, Size { x: 6, y: 1, z: 8 }, None),
                (0x7ff48eebca80194facc3af53f46116a3u128, ComponentKind::Compartment, Size { x: 6, y: 1, z: 8 }, None),
                (0xf51d2d7e3b0dfa48844d404b7820a61bu128, ComponentKind::Compartment, Size { x: 6, y: 1, z: 8 }, None),
                (0xf9b005e91e9a894d807e7f13fe8298e2u128, ComponentKind::Compartment, Size { x: 6, y: 1, z: 4 }, None),
                (0xfbb1f75860f0c844832379641f305d19u128, ComponentKind::Compartment, Size { x: 6, y: 1, z: 4 }, None),
                (0xa35a3958ea20504db9e58562e372a571u128, ComponentKind::Compartment, Size { x: 4, y: 1, z: 8 }, None),
                (0x0c0703780d32b244a38def76098f85efu128, ComponentKind::Compartment, Size { x: 6, y: 1, z: 4 }, None),
                (0x8cabc283d9d89a429f027e3e86dfd8e8u128, ComponentKind::Compartment, Size { x: 6, y: 1, z: 8 }, None),
                (0xf1528c99b036dc49b57fe30164a3b6bcu128, ComponentKind::Module, Size { x: 6, y: 6, z: 6 }, None),
                (0xb9d4233425a50346b092fe8b847e79b9u128, ComponentKind::Module, Size { x: 3, y: 3, z: 3 }, None),
                (0xdde5d6524b165e4fb9abd316e76ae087u128, ComponentKind::Module, Size { x: 8, y: 12, z: 10 }, None),
                (0xfe3a85c207f712429452a1f355689dcfu128, ComponentKind::Module, Size { x: 3, y: 3, z: 3 }, None),
                (0xaae94b54552dce4d909bcad9b5fa450fu128, ComponentKind::Module, Size { x: 2, y: 2, z: 2 }, None),
                (0x37f806516090c74994397f51685a08e8u128, ComponentKind::Module, Size { x: 3, y: 3, z: 3 }, None),
                (0x1356526e9629664b9f0b289f62288af1u128, ComponentKind::Module, Size { x: 2, y: 2, z: 2 }, None),
                (0xfa111361c98a1f479e5f3905a678607au128, ComponentKind::Module, Size { x: 2, y: 2, z: 2 }, None),
                (0x854d8bf7755f414fa3bad9d10b474a83u128, ComponentKind::Module, Size { x: 2, y: 2, z: 2 }, None),
            ],
            HullKey::AxfordHeavyCruiser => seq![
                (0xc210cff6bb5bba42aca1c9ebaa7a9a2du128, ComponentKind::Mount, Size { x: 6, y: 4, z: 6 }, Some(Direction::Up)),
                (0xf02b4228f2df64438e16f9b50e157ea1u128, ComponentKind::Mount, Size { x: 6, y: 4, z: 6 }, Some(Direction::Up)),
                (0x37bc9161852e1b4b8ecdde5ab9f81588u128, ComponentKind::Mount, Size { x: 8, y: 7, z: 8 }, Some(Direction::Down)),
                (0x958110a388c9bc41b146a25ad8c076e4u128, ComponentKind::Mount, Size { x: 3, y: 4, z: 3 }, Some(Direction::Left)),
                (0xf6aade18fd88c342b0ba5a0da4d1534au128, ComponentKind::Mount, Size { x: 3, y: 4, z: 3 }, Some(Direction::Left)),
                (0xbfd4aa6b90dc0a489b762dbd0246a436u128, ComponentKind::Mount, Size { x: 3, y: 4, z: 3 }, Some(Direction::Right)),
                (0xdcca1e614c751d44bac4d0c132cb2c8au128, ComponentKind::Mount, Size { x: 3, y: 4, z: 3 }, Some(Direction::Right)),
                (0x2db0fd4f17be4b46bf9ce0d3aadae4eeu128, ComponentKind::Mount, Size { x: 2, y: 2, z: 2 }, Some(Direction::Up)),
                (0x2b1574864906044d803940a8e5ac506eu128, ComponentKind::Mount, Size { x: 2, y: 2, z: 2 }, Some(Direction::Down)),
                (0xb72197aee7028d47b4155c8fd580e953u128, ComponentKind::Mount, Size { x: 2, y: 2, z: 2 }, Some(Direction::Up)),
                (0xad766176d6cadc40bc2bf72eebeaff5eu128, ComponentKind::Mount, Size { x: 2, y: 2, z: 2 }, Some(Direction::Up)),
                (0xca552f98048a9448b20adc82b0d44a5au128, ComponentKind::Compartment, Size { x: 6, y: 1, z: 8 }, None),
                (0x4d7d9392d65eec4581f6cf8caa50d080u128, ComponentKind::Compartment, Size { x: 6, y: 1, z: 8 }, None),
                (0x70cb348348375947992500126fba267bu128, ComponentKind::Compartment, Size { x: 6, y: 1, z: 8 }, None),
                (0x887620dc3758014292fae201691a4da8u128, ComponentKind::Compartment, Size { x: 6, y: 1, z: 8 }, None),
                (0x8f6493db261fc24dbfb4121ac88dec42u128, ComponentKind::Compartment, Size { x: 6, y: 1, z: 4 }, None),
                (0x495ff8060731c14db86086dea7e93be2u128, ComponentKind::Compartment, Size { x: 6, y: 1, z: 4 }, None),
                (0x03c7bf67f77c594daace8e874d0c0204u128, ComponentKind::Compartment, Size { x: 4, y: 1, z: 6 }, None),
                (0xdb198e4b89ecfc468c623057aeb8618au128, ComponentKind::Compartment, Size { x: 6, y: 1, z: 6 }, None),
                (0xcb5c4b8b1294cd448a4fb373eda5242du128, ComponentKind::Compartment, Size { x: 6, y: 1, z: 6 }, None),
                (0x46651e78f6fef0419b15a460563097b0u128, ComponentKind::Compartment, Size { x: 6, y: 1, z: 8 }, None),
                (0x798a7520f7eea54195213ae456181927u128, ComponentKind::Compartment, Size { x: 4, y: 1, z: 6 }, None),
                (0x97192098dc2a8d4b9ad2c45e7b6a4326u128, ComponentKind::Module, Size { x: 6, y: 6, z: 6 }, None),
                (0xfc0ba7f875be0e4386cad5666129f921u128, ComponentKind::Module, Size { x: 6, y: 6, z: 6 }, None),
                (0xd992c426fc587f40804e5d65062ddcb9u128, ComponentKind::Module, Size { x: 12, y: 8, z: 10 }, None),
                (0x6dafb7550fb318498309f535dae6aa68u128, ComponentKind::Module, Size { x: 3, y: 3, z: 3 }, None),
                (0x850f8ccf29ecd143b8a0ca7b806d1df0u128, ComponentKind::Module, Size { x: 3, y: 3, z: 3 }, None),
                (0xa320317e77a99041b8e958edbd0597a7u128, ComponentKind::Module, Size { x: 3, y: 3, z: 3 }, None),
                (0x628f613f0e8c7f4eb4077beac123b818u128, ComponentKind::Module, Size { x: 3, y: 3, z: 3 }, None),
                (0x0a0a5141afbaeb428479dd704d12f8bfu128, ComponentKind::Module, Size { x: 2, y: 2, z: 2 }, None),
                (0x6b0c1d7839cdb341be45c7901754c1c8u128, ComponentKind::Module, Size { x: 2, y: 2, z: 2 }, None),
                (0xb67643f81e4bb34a80c81b5dcf8ca84cu128, ComponentKind::Module, Size { x: 2, y: 2, z: 2 }, None),
                (0x4bc00b72938c604a89a20d6fdaaf1431u128, ComponentKind::Module, Size { x: 2, y: 2, z: 2 }, None),
                (0xad05844ec0c6744f8047c37734f7f05eu128, ComponentKind::Module, Size { x: 2, y: 2, z: 2 }, None),
            ],
            HullKey::SolomonBattleship => seq![
                (0xbefa65fe957c0745b7ddeae7af0df58eu128, ComponentKind::Mount, Size { x: 8, y: 7, z: 8 }, Some(Direction::Up)),
                (0x0339efa58d81cb41a243181e39392dc3u128, ComponentKind::Mount, Size { x: 6, y: 4, z: 6 }, Some(Direction::Up)),
                (0x3799ccaed9386e48920f339f7c0988d7u128, ComponentKind::Mount, Size { x: 8, y: 7, z: 8 }, Some(Direction::Up)),
                (0x1ec18384247f4f4287d5d77352748798u128, ComponentKind::Mount, Size { x: 8, y: 7, z: 8 }, Some(Direction::Down)),
                (0xa1165899215db24d81141d373eac92dbu128, ComponentKind::Mount, Size { x: 3, y: 4, z: 3 }, Some(Direction::Left)),
                (0x72c68d656f39be43bcb8843d5c37b58bu128, ComponentKind::Mount, Size { x: 3, y: 4, z: 3 }, Some(Direction::Left)),
                (0x7811b4521ac18a4cb89d4c7cd6b3db2fu128, ComponentKind::Mount, Size { x: 3, y: 4, z: 3 }, Some(Direction::Left)),
                (0x33a35a4af2da9b4e82fb50d382023df6u128, ComponentKind::Mount, Size { x: 2, y: 2, z: 2 }, Some(Direction::Left)),
                (0xdc728d1addf4e540b6ddf193f0e29c2fu128, ComponentKind::Mount, Size { x: 3, y: 4, z: 3 }, Some(Direction::Right)),
                (0x47f63e2d309cd24c9d97a2fc4aae439bu128, ComponentKind::Mount, Size { x: 3, y: 4, z: 3 }, Some(Direction::Right)),
                (0xfa0b4ed1aa860c4387f939bad76c00a0u128, ComponentKind::Mount, Size { x: 3, y: 4, z: 3 }, Some(Direction::Right)),
                (0xdfba19f3de17ee41b60ead04e6610a0du128, ComponentKind::Mount, Size { x: 2, y: 2, z: 2 }, Some(Direction::Right)),
                (0x6631fa68f5e797478e76495a3ec44d00u128, ComponentKind::Mount, Size { x: 2, y: 2, z: 2 }, Some(Direction::Up)),
                (0xe1d34aaf98bcec47831aaf5ca1a59826u128, ComponentKind::Mount, Size { x: 2, y: 2, z: 2 }, Some(Direction::Down)),
                (0x5c06c63d73e00c4b8389e403a9b03d31u128, ComponentKind::Compartment, Size { x: 6, y: 1, z: 8 }, None),
                (0x497f9ae09e1e7a4da7989ced5de3d4ddu128, ComponentKind::Compartment, Size { x: 6, y: 1, z: 8 }, None),
                (0xe2c516c0fd15ba43856d74f560031af6u128, ComponentKind::Compartment, Size { x: 6, y: 1, z: 8 }, None),
                (0xd3d01e9f1220a24ca4c0c4c2309cf6e3u128, ComponentKind::Compartment, Size { x: 6, y: 1, z: 4 }, None),
                (0x46d65ef39b095243b96f5c557603e5a9u128, ComponentKind::Compartment, Size { x: 6, y: 1, z: 4 }, None),
                (0xf1842fe87e5f3744b2943738a767d3fbu128, ComponentKind::Compartment, Size { x: 6, y: 1, z: 4 }, None),
                (0xe8ff28847187fd468200c104e6316846u128, ComponentKind::Compartment, Size { x: 6, y: 1, z: 4 }, None),
                (0xf344f4d3eef58b45b3fae364d38773bdu128, ComponentKind::Compartment, Size { x: 6, y: 1, z: 4 }, None),
                (0x19b18d4ba645a34ab1f9dc6e1266536eu128, ComponentKind::Compartment, Size { x: 6, y: 1, z: 8 }, None),
                (0xb64b7d24f03657409600ef837e3f051du128, ComponentKind::Compartment, Size { x: 6, y: 1, z: 4 }, None),
                (0x4243bbe99d8f014abc883e1cb9cfcfe0u128, ComponentKind::Compartment, Size { x: 6, y: 1, z: 4 }, None),
                (0x969df57229d62c4f991a0b62b2ea1abau128, ComponentKind::Compartment, Size { x: 6, y: 1, z: 8 }, None),
                (0xc1b815ba9767cc41a57ba7fcb5ecd961u128, ComponentKind::Compartment, Size { x: 6, y: 1, z: 8 }, None),
                (0x265e479acb0fe34e80bbb9f834771e43u128, ComponentKind::Compartment, Size { x: 6, y: 1, z: 8 }, None),
                (0xfb06b953f85dc34987288d4f8250de1au128, ComponentKind::Compartment, Size { x: 6, y: 1, z: 8 }, None),
                (0xf7b97f7ff92d6f4ca812ab886bbe6272u128, ComponentKind::Compartment, Size { x: 6, y: 1, z: 8 }, None),
                (0x0b3fdc9bc691b74991898c5dab6e95ecu128, ComponentKind::Module, Size { x: 8, y: 8, z: 8 }, None),
                (0x78ebe627adb97f4c866af600498b5861u128, ComponentKind::Module, Size { x: 8, y: 8, z: 8 }, None),
                (0xd48e564405f4a14eb322fef212fa9f99u128, ComponentKind::Module, Size { x: 16, y: 8, z: 10 }, None),
                (0xf7c6996189eb5d458a5e17945c7a0b2fu128, ComponentKind::Module, Size { x: 12, y: 8, z: 10 }, None),
                (0x715b0b77199efe41925368d69589d7ceu128, ComponentKind::Module, Size { x: 3, y: 3, z: 3 }, None),
                (0xad659764d9db2948bb7630cf68a4edb5u128, ComponentKind::Module, Size { x: 3, y: 3, z: 3 }, None),
                (0xb60583f1f6ce0445aae0a7ef60337f05u128, ComponentKind::Module, Size { x: 3, y: 3, z: 3 }, None),
                (0xe307dee876c1f6408dec20dc17bfcf39u128, ComponentKind::Module, Size { x: 3, y: 3, z: 3 }, None),
                (0xc80836c140a42746ba11fde6f7a5b263u128, ComponentKind::Module, Size { x: 3, y: 3, z: 3 }, None),
                (0xad36d89327305a4bbe61ed4508125bbfu128, ComponentKind::Module, Size { x: 3, y: 3, z: 3 }, None),
                (0xf9aa367c193ece42b74137551f87ea1cu128, ComponentKind::Module, Size { x: 3, y: 3, z: 3 }, None),
                (0xe6538542a2dffa4390ab4cdb22fd0c2bu128, ComponentKind::Module, Size { x: 2, y: 2, z: 2 }, None),
                (0x3d65919cd4e8eb40b1f5f6826d4871fau128, ComponentKind::Module, Size { x: 2, y: 2, z: 2 }, None),
                (0xdf58a58058b67f449cbc96c589af8ea6u128, ComponentKind::Module, Size { x: 2, y: 2, z: 2 }, None),
                (0x323245cdc9a9da408b4569a30b7d1328u128, ComponentKind::Module, Size { x: 2, y: 2, z: 2 }, None),
            ],
            HullKey::ShuttleClipper => seq![
                (0xde694203a0ba9b4188df038d64afdaaau128, ComponentKind::Mount, Size { x: 3, y: 2, z: 3 }, Some(Direction::Up)),
                (0x7db0201ccf6edf4da97853120b44e275u128, ComponentKind::Mount, Size { x: 3, y: 2, z: 3 }, Some(Direction::Down)),
                (0xadb66118237b51459c80bb0d66465720u128, ComponentKind::Mount, Size { x: 2, y: 2, z: 2 }, Some(Direction::Up)),
                (0x861f0f034d63c44cad9fd2ae8a1709ddu128, ComponentKind::Compartment, Size { x: 4, y: 1, z: 6 }, None),
                (0xc0358079ea002b4980c7785b175b4c94u128, ComponentKind::Compartment, Size { x: 3, y: 1, z: 3 }, None),
                (0x09c4978c8ba95742b0fa3c5a57a1e910u128, ComponentKind::Compartment, Size { x: 3, y: 1, z: 3 }, None),
                (0x6c89f2879000b74cbf9bedd4688f18b3u128, ComponentKind::Module, Size { x: 3, y: 3, z: 3 }, None),
                (0xfa16ab3300f4a34384c6e32a4faddf4du128, ComponentKind::Module, Size { x: 8, y: 3, z: 6 }, None),
                (0xcd4783378169604cb25872214c881916u128, ComponentKind::Module, Size { x: 2, y: 2, z: 2 }, None),
                (0xb9727f7efb19dd4480b354a9893ad9d6u128, ComponentKind::Module, Size { x: 2, y: 2, z: 2 }, None),
            ],
            HullKey::TugboatClipper => seq![
                (0xd37bf1ada946ab4085c755cac6339c04u128, ComponentKind::Mount, Size { x: 2, y: 5, z: 2 }, Some(Direction::Fore)),
                (0x7081aca4ce28614d9eb517e321cb8208u128, ComponentKind::Mount, Size { x: 3, y: 2, z: 5 }, Some(Direction::Up)),
                (0xd2ea4e826d07d14b99fa1d98bd18e606u128, ComponentKind::Mount, Size { x: 3, y: 2, z: 5 }, Some(Direction::Down)),
                (0x2a71474246fdb947bdf08c1e2d87fdc2u128, ComponentKind::Mount, Size { x: 2, y: 2, z: 2 }, Some(Direction::Right)),
                (0xe64776d2119cc54b93958fba2586ae74u128, ComponentKind::Mount, Size { x: 2, y: 2, z: 2 }, Some(Direction::Left)),
                (0x17a6e625d08edc4ab35caf52049a1753u128, ComponentKind::Compartment, Size { x: 4, y: 1, z: 6 }, None),
                (0xf8faa82ca8a6494399b4a30ba394075eu128, ComponentKind::Compartment, Size { x: 4, y: 1, z: 6 }, None),
                (0x0da90a4b6832e94c8ce7cbb7606f877du128, ComponentKind::Compartment, Size { x: 3, y: 1, z: 3 }, None),
                (0xa5ea9a62b137f54ba95825cf63f3e0a0u128, ComponentKind::Compartment, Size { x: 3, y: 1, z: 3 }, None),
                (0xe8e89e487d00ea42859aab9cb67f7f69u128, ComponentKind::Compartment, Size { x: 4, y: 1, z: 6 }, None),
                (0x35201b867f5bac4f9a022ac9148606f9u128, ComponentKind::Module, Size { x: 6, y: 6, z: 6 }, None),
                (0xfea94ff2bb14a54889a6445cd6d7233du128, ComponentKind::Module, Size { x: 8, y: 3, z: 6 }, None),
                (0x44c0d34652131949b56606c8816ab55fu128, ComponentKind::Module, Size { x: 2, y: 2, z: 2 }, None),
                (0xbfbbe77b1235c547a6692992927d1034u128, ComponentKind::Module, Size { x: 2, y: 2, z: 2 }, None),
            ],
            HullKey::CargoFeederMonitor => seq![
                (0xe15eadc2b214704284d75b689beb435du128, ComponentKind::Mount, Size { x: 6, y: 12, z: 6 }, Some(Direction::Fore)),
                (0xc8dedffbdb445c42a504db24a8fe846cu128, ComponentKind::Mount, Size { x: 6, y: 4, z: 6 }, Some(Direction::Up)),
                (0x676b83b37e09f844aeeb8fa2f581a7c5u128, ComponentKind::Mount, Size { x: 6, y: 4, z: 6 }, Some(Direction::Down)),
                (0x81bebfde45816342a511679ec77aee0eu128, ComponentKind::Mount, Size { x: 3, y: 2, z: 5 }, Some(Direction::Right)),
                (0xff2f8177e1168d478c22b9b31b7531bdu128, ComponentKind::Mount, Size { x: 3, y: 2, z: 5 }, Some(Direction::Left)),
                (0x803420866e628a4dacc9872826a50f16u128, ComponentKind::Compartment, Size { x: 6, y: 1, z: 8 }, None),
                (0xbed99ef37097834a83038fd82ba36ac0u128, ComponentKind::Compartment, Size { x: 6, y: 3, z: 8 }, None),
                (0x4d333c3be3140e4cb4ebffcbc2f4a8f3u128, ComponentKind::Compartment, Size { x: 6, y: 1, z: 3 }, None),
                (0xac6545809f06c9478fa11933df7735b3u128, ComponentKind::Compartment, Size { x: 6, y: 1, z: 3 }, None),
                (0xfe152f8fcf7d1a458fd1b9e30cdd4e0fu128, ComponentKind::Compartment, Size { x: 6, y: 3, z: 8 }, None),
                (0x3782883ac36a794195014af1e4e5b70du128, ComponentKind::Compartment, Size { x: 6, y: 3, z: 8 }, None),
                (0xf4aff564d0a01444abbdaa1030e1f7cbu128, ComponentKind::Module, Size { x: 6, y: 6, z: 6 }, None),
                (0x1cdbfa07eefc144ba157c613f40eae67u128, ComponentKind::Module, Size { x: 10, y: 5, z: 8 }, None),
                (0x1ef74406c9e9514ca93cde2e5baee969u128, ComponentKind::Module, Size { x: 3, y: 3, z: 3 }, None),
                (0x8837657c5c0a9143bd1dbba6cf299c78u128, ComponentKind::Module, Size { x: 3, y: 3, z: 3 }, None),
                (0x0daa96117fbc804788cd8ae1a7c34833u128, ComponentKind::Module, Size { x: 3, y: 3, z: 3 }, None),
                (0x12f67a24de7157469494a11e78ac454du128, ComponentKind::Module, Size { x: 2, y: 2, z: 2 }, None),
                (0x094fe8adaa89c44681ddd4f3656d8c90u128, ComponentKind::Module, Size { x: 2, y: 2, z: 2 }, None),
            ],
            HullKey::OcelloCommandCruiser => seq![
                (0x889cf3c629d2374b89223aedf4cdda18u128, ComponentKind::Mount, Size { x: 6, y: 4, z: 6 }, Some(Direction::Up)),
                (0x950ec6a652758a45b42bf4215caec6bcu128, ComponentKind::Mount, Size { x: 6, y: 4, z: 6 }, Some(Direction::Up)),
                (0xeb45feed54a5c54aba41ab3e2b0b3330u128, ComponentKind::Mount, Size { x: 6, y: 4, z: 6 }, Some(Direction::Down)),
                (0xe2fe5ed35fa01148933674097af3691au128, ComponentKind::Mount, Size { x: 3, y: 4, z: 3 }, Some(Direction::Left)),
                (0xa3bf2379b2f69e47b35dd1c9eb103758u128, ComponentKind::Mount, Size { x: 3, y: 4, z: 3 }, Some(Direction::Right)),
                (0x1a99b628528f094fb41022abd18b0903u128, ComponentKind::Mount, Size { x: 3, y: 4, z: 3 }, Some(Direction::Up)),
                (0xfa5c057b2bc35040b20be02e55f013a2u128, ComponentKind::Mount, Size { x: 3, y: 4, z: 3 }, Some(Direction::Down)),
                (0xac8e64ef2b591f44bbc902d99c507f9du128, ComponentKind::Mount, Size { x: 2, y: 2, z: 2 }, Some(Direction::Up)),
                (0xd09f69c9e169e94e8a3040178ae3471fu128, ComponentKind::Mount, Size { x: 2, y: 2, z: 2 }, Some(Direction::Down)),
                (0x98fe57a076775a4f83b0593760b031ceu128, ComponentKind::Mount, Size { x: 2, y: 2, z: 2 }, Some(Direction::Left)),
                (0xc5eecb353ad2b54b92f0f3029fa298b1u128, ComponentKind::Mount, Size { x: 2, y: 2, z: 2 }, Some(Direction::Right)),
                (0xe0d2813acb30c941a9540f983fe4f99eu128, ComponentKind::Compartment, Size { x: 6, y: 1, z: 8 }, None),
                (0x6f346058dac1744e818d4686cbc1b5b6u128, ComponentKind::Compartment, Size { x: 6, y: 1, z: 8 }, None),
                (0x7e85a25c9642104290c742e63b520c9fu128, ComponentKind::Compartment, Size { x: 6, y: 1, z: 8 }, None),
                (0xbe20b7f01b8e684bb24e554345d17482u128, ComponentKind::Compartment, Size { x: 6, y: 1, z: 8 }, None),
                (0x19723160f7e4f04d9c6d09cad14d5037u128, ComponentKind::Compartment, Size { x: 4, y: 1, z: 6 }, None),
                (0xab98872edf55114fb5ebac783499abe1u128, ComponentKind::Compartment, Size { x: 6, y: 1, z: 6 }, None),
                (0xbd75d9034daa404cab7824856ed2c938u128, ComponentKind::Compartment, Size { x: 6, y: 1, z: 6 }, None),
                (0x4b4dda5a37d7f747a96c2732b6ef7fc7u128, ComponentKind::Compartment, Size { x: 6, y: 1, z: 6 }, None),
                (0x6889a00fa8dcab41995d18b9326c9e5bu128, ComponentKind::Compartment, Size { x: 6, y: 1, z: 6 }, None),
                (0x8631f1cec1b98940a4686d1e19de766cu128, ComponentKind::Module, Size { x: 6, y: 6, z: 6 }, None),
                (0x169ebf37212ad44f9919e67133d92352u128, ComponentKind::Module, Size { x: 6, y: 6, z: 6 }, None),
                (0xf97c1a38c37a7944accedbf2c2b99755u128, ComponentKind::Module, Size { x: 8, y: 12, z: 10 }, None),
                (0xdba9b155e39d774481e5949a1bf849d3u128, ComponentKind::Module, Size { x: 3, y: 3, z: 3 }, None),
                (0x736ccc2daa24994e865093187d2dcdfdu128, ComponentKind::Module, Size { x: 3, y: 3, z: 3 }, None),
                (0xb77ff76bc7256e4cb60d06b483f38382u128, ComponentKind::Module, Size { x: 3, y: 3, z: 3 }, None),
                (0xef7c75216f9c714488ff46c87163053fu128, ComponentKind::Module, Size { x: 2, y: 2, z: 2 }, None),
                (0x2cd8674ce69f95468b3f1bdca4472d1au128, ComponentKind::Module, Size { x: 2, y: 2, z: 2 }, None),
                (0xc8f544583ab0d043aa176239feef844cu128, ComponentKind::Module, Size { x: 2, y: 2, z: 2 }, None),
                (0x143b98c38ca05348a4eb0420eab5b642u128, ComponentKind::Module, Size { x: 2, y: 2, z: 2 }, None),
            ],
            HullKey::BulkFreighterLineShip => seq![
                (0x13d20c503fd4cf4ebad7e9d880987832u128, ComponentKind::Mount, Size { x: 6, y: 10, z: 6 }, Some(Direction::Left)),
                (0x6ae43b8a319e5f47af76291941e0714eu128, ComponentKind::Mount, Size { x: 6, y: 10, z: 6 }, Some(Direction::Right)),
                (0x77737e07f2670d428075544127a9ef15u128, ComponentKind::Mount, Size { x: 6, y: 10, z: 6 }, Some(Direction::Left)),
                (0xc6f353d7f0d8714b92a54eabae62ffe0u128, ComponentKind::Mount, Size { x: 6, y: 10, z: 6 }, Some(Direction::Right)),
                (0xb744f809200f9c4ab8aef1c0565f38f9u128, ComponentKind::Mount, Size { x: 6, y: 10, z: 6 }, Some(Direction::Right)),
                (0x82b6018f1212dc4fbe966aea7a7b8af0u128, ComponentKind::Mount, Size { x: 6, y: 10, z: 6 }, Some(Direction::Left)),
                (0xf2996d19ec47004c852f696339ed2831u128, ComponentKind::Mount, Size { x: 6, y: 10, z: 6 }, Some(Direction::Left)),
                (0xb5c41f8fa5ce1d4585480c7f5b471cd4u128, ComponentKind::Mount, Size { x: 6, y: 10, z: 6 }, Some(Direction::Right)),
                (0x6f1becbe0e739e4e93aa220aabc1f492u128, ComponentKind::Mount, Size { x: 3, y: 4, z: 3 }, Some(Direction::Down)),
                (0xf4417dbb45757947ad95e06791084790u128, ComponentKind::Mount, Size { x: 3, y: 4, z: 3 }, Some(Direction::Up)),
                (0x23af2d36783e2b4c86f80a14c741dc4bu128, ComponentKind::Mount, Size { x: 3, y: 4, z: 3 }, Some(Direction::Down)),
                (0x49be7e552bb09645a94fa562462277beu128, ComponentKind::Mount, Size { x: 3, y: 4, z: 3 }, Some(Direction::Up)),
                (0xe9988e0e7a17aa468d5af6aac868e7c2u128, ComponentKind::Mount, Size { x: 3, y: 4, z: 3 }, Some(Direction::Up)),
                (0xf3b3d2820f4644498653d3084405d786u128, ComponentKind::Mount, Size { x: 3, y: 4, z: 3 }, None),
                (0x54342164fa3eae45a4cf0a336addbb7fu128, ComponentKind::Mount, Size { x: 3, y: 4, z: 3 }, None),
                (0xcb50acf0b474294c822940090483b23au128, ComponentKind::Compartment, Size { x: 8, y: 3, z: 8 }, None),
                (0x7d8a17d9a9939742ab66eacf2a353d82u128, ComponentKind::Compartment, Size { x: 8, y: 3, z: 8 }, None),
                (0xdcacbc3ef771a9428c45765ad312c5d8u128, ComponentKind::Compartment, Size { x: 8, y: 3, z: 8 }, None),
                (0x4fd4cdd1962e994682c5c4918cefea4fu128, ComponentKind::Compartment, Size { x: 8, y: 1, z: 8 }, None),
                (0x4f877ef169c0fd488748987a3d7897a4u128, ComponentKind::Compartment, Size { x: 8, y: 1, z: 8 }, None),
                (0xe8ba432f6ed0b845b43d90a6df9371e7u128, ComponentKind::Compartment, Size { x: 8, y: 1, z: 8 }, None),
                (0x40838542941228448874dcdffc9105c8u128, ComponentKind::Compartment, Size { x: 8, y: 1, z: 8 }, None),
                (0x15570f21c57fd347aeeb635040ade82eu128, ComponentKind::Compartment, Size { x: 8, y: 1, z: 8 }, None),
                (0xd45ad3279a3ce74ca796ae1d44398c6cu128, ComponentKind::Compartment, Size { x: 8, y: 1, z: 8 }, None),
                (0xbcecf31e8e0a7c4eb4c19dd0d6cdfc18u128, ComponentKind::Module, Size { x: 12, y: 12, z: 12 }, None),
                (0xe9ebd675e2c64f4b802ded3be7e9e183u128, ComponentKind::Module, Size { x: 6, y: 6, z: 6 }, None),
                (0x25508b7f744a2943811176965a454b33u128, ComponentKind::Module, Size { x: 3, y: 3, z: 3 }, None),
                (0x247262db2e57b24cada70e7e41bbbde4u128, ComponentKind::Module, Size { x: 3, y: 3, z: 3 }, None),
                (0xcabc8761780c584cbdebd811b9a0ceebu128, ComponentKind::Module, Size { x: 3, y: 3, z: 3 }, None),
                (0x33799cec0e16394fb67eae5781148408u128, ComponentKind::Module, Size { x: 3, y: 3, z: 3 }, None),
                (0x4bead0a35f6bdb42b42f43d17abdf233u128, ComponentKind::Module, Size { x: 3, y: 3, z: 3 }, None),
                (0x310c9380e2c60a4c9e96376f6e49050cu128, ComponentKind::Module, Size { x: 3, y: 3, z: 3 }, None),
            ],
            HullKey::ContainerLinerLineShip => seq![
                (0xb8b1c3c232c57a4b98698de1d09c19a1u128, ComponentKind::Mount, Size { x: 20, y: 5, z: 30 }, None),
                (0xe3848cc1949b464390c90989e39f18d5u128, ComponentKind::Mount, Size { x: 20, y: 5, z: 30 }, None),
                (0x564383c3efb4ce4f8ae0591a8e93e3c1u128, ComponentKind::Mount, Size { x: 20, y: 5, z: 20 }, None),
                (0x17e9c73599b86745993096a4240c253fu128, ComponentKind::Mount, Size { x: 20, y: 5, z: 20 }, None),
                (0xcbbd071ee2d6774ba984ed87fa1bd919u128, ComponentKind::Mount, Size { x: 3, y: 4, z: 3 }, Some(Direction::Up)),
                (0x3637d53c57c9a949a4c3e011ff62818eu128, ComponentKind::Mount, Size { x: 3, y: 4, z: 3 }, Some(Direction::Down)),
                (0x4dc4b9f5c53c5f46849b776cecdaa2c6u128, ComponentKind::Mount, Size { x: 3, y: 4, z: 3 }, None),
                (0xdd61270ca89b634f9626fb6af7eb66b8u128, ComponentKind::Mount, Size { x: 3, y: 4, z: 3 }, None),
                (0xe876db02d2c51943a2fa4ab4e84ad074u128, ComponentKind::Mount, Size { x: 3, y: 4, z: 3 }, None),
                (0x6c5e22b2389e3b49b43ec3a513ece091u128, ComponentKind::Mount, Size { x: 3, y: 4, z: 3 }, None),
                (0x2ae29302208ce74b8857b5d5d52f30afu128, ComponentKind::Mount, Size { x: 3, y: 4, z: 3 }, None),
                (0xcb50acf0b474294c822940090483b23au128, ComponentKind::Compartment, Size { x: 8, y: 3, z: 8 }, None),
                (0x896881afdb82c94081b9bf88216d9b66u128, ComponentKind::Compartment, Size { x: 8, y: 3, z: 8 }, None),
                (0x42176da2f713934592a4c014b01205e9u128, ComponentKind::Compartment, Size { x: 8, y: 3, z: 8 }, None),
                (0x4fd4cdd1962e994682c5c4918cefea4fu128, ComponentKind::Compartment, Size { x: 8, y: 1, z: 8 }, None),
                (0x4f877ef169c0fd488748987a3d7897a4u128, ComponentKind::Compartment, Size { x: 8, y: 1, z: 8 }, None),
                (0x86cf9268fa5e854bbc65bc2cb894af5fu128, ComponentKind::Compartment, Size { x: 8, y: 1, z: 8 }, None),
                (0x8e1634465ab12e45baf5c9450865c42cu128, ComponentKind::Compartment, Size { x: 8, y: 1, z: 8 }, None),
                (0x384f2a55c7086041b07ef257b22160a0u128, ComponentKind::Compartment, Size { x: 8, y: 1, z: 8 }, None),
                (0x5009808f7f4cdc4db33e7557178ea464u128, ComponentKind::Compartment, Size { x: 8, y: 1, z: 8 }, None),
                (0xcb19d0c5eb941d43b6da99be2d0bb80au128, ComponentKind::Module, Size { x: 12, y: 12, z: 12 }, None),
                (0xfee110cc7291cc4aaa22a6b573cc0973u128, ComponentKind::Module, Size { x: 6, y: 6, z: 6 }, None),
                (0x3347b0be298b294daf5e8ce764d0e861u128, ComponentKind::Module, Size { x: 3, y: 3, z: 3 }, None),
                (0x717a416a5df6a74f91da903a84dd39ebu128, ComponentKind::Module, Size { x: 3, y: 3, z: 3 }, None),
                (0x398ef6e95eeb01428347dd8c40cee09du128, ComponentKind::Module, Size { x: 3, y: 3, z: 3 }, None),
                (0x4a6502d0973d144b8278a73f64933122u128, ComponentKind::Module, Size { x: 3, y: 3, z: 3 }, None),
            ],
        }
    }

    /// The sockets of this hull, in order.
    pub fn sockets(self) -> (r: Vec<HullSocketInfo>)
        ensures
            r@.map_values(|s: HullSocketInfo| hull_socket_view(s)) == self.spec_sockets(),
    {
        match self {
            HullKey::SprinterCorvette => sprinter_corvette_sockets(),
            HullKey::RainesFrigate => raines_frigate_sockets(),
            HullKey::KeystoneDestroyer => keystone_destroyer_sockets(),
            HullKey::VauxhallLightCruiser => vauxhall_light_cruiser_sockets(),
            HullKey::AxfordHeavyCruiser => axford_heavy_cruiser_sockets(),
            HullKey::SolomonBattleship => solomon_battleship_sockets(),
            HullKey::ShuttleClipper => shuttle_clipper_sockets(),
            HullKey::TugboatClipper => tugboat_clipper_sockets(),
            HullKey::CargoFeederMonitor => cargo_feeder_monitor_sockets(),
            HullKey::OcelloCommandCruiser => ocello_command_cruiser_sockets(),
            HullKey::BulkFreighterLineShip => bulk_freighter_line_ship_sockets(),
            HullKey::ContainerLinerLineShip => container_liner_line_ship_sockets(),
        }
    }

    /// The crew this hull carries without berthings.
    pub open spec fn spec_base_crew_complement(self) -> usize {
        match self {
            HullKey::SprinterCorvette => 40,
            HullKey::RainesFrigate => 50,
            HullKey::KeystoneDestroyer => 50,
            HullKey::VauxhallLightCruiser => 75,
            HullKey::AxfordHeavyCruiser => 90,
            HullKey::SolomonBattleship => 150,
            HullKey::ShuttleClipper => 55,
            HullKey::TugboatClipper => 40,
            HullKey::CargoFeederMonitor => 40,
            HullKey::OcelloCommandCruiser => 80,
            HullKey::BulkFreighterLineShip => 100,
            HullKey::ContainerLinerLineShip => 100,
        }
    }

    /// The crew this hull carries without berthings.
    pub fn base_crew_complement(self) -> (r: usize)
        ensures
            r == self.spec_base_crew_complement(),
    {
        match self {
            HullKey::SprinterCorvette => 40,
            HullKey::RainesFrigate => 50,
            HullKey::KeystoneDestroyer => 50,
            HullKey::VauxhallLightCruiser => 75,
            HullKey::AxfordHeavyCruiser => 90,
            HullKey::SolomonBattleship => 150,
            HullKey::ShuttleClipper => 55,
            HullKey::TugboatClipper => 40,
            HullKey::CargoFeederMonitor => 40,
            HullKey::OcelloCommandCruiser => 80,
            HullKey::BulkFreighterLineShip => 100,
            HullKey::ContainerLinerLineShip => 100,
        }
    }
}

/// The socket with these plain values.
fn socket(key: u128, kind: ComponentKind, x: usize, y: usize, z: usize, direction: Option<Direction>) -> (r: HullSocketInfo)
    ensures
        hull_socket_view(r) == (key, kind, Size { x, y, z }, direction),
{
    HullSocketInfo { save_key: Key::from_u128(key), kind, size: Size { x, y, z }, direction }
}

fn sprinter_corvette_sockets() -> (r: Vec<HullSocketInfo>)
    ensures
        r@.map_values(|s: HullSocketInfo| hull_socket_view(s)) == HullKey::SprinterCorvette.spec_sockets(),
{
    let mut v: Vec<HullSocketInfo> = Vec::new();
    v.push(socket(0xc03b119cbe672a4c98bca803e9570f1eu128, ComponentKind::Mount, 3, 4, 5, Some(Direction::Down)));
    v.push(socket(0x678f28b7f7507e459be805588da33f80u128, ComponentKind::Mount, 3, 2, 3, Some(Direction::Down)));
    v.push(socket(0x21474d495666d84bbd9f71791e74809eu128, ComponentKind::Mount, 2, 2, 2, Some(Direction::Right)));
    v.push(socket(0x67163d38d633f344a22cd48e6ef8cdcdu128, ComponentKind::Mount, 2, 2, 2, Some(Direction::Left)));
    v.push(socket(0x5cf6980a306a744a81c4422c54b3f4a0u128, ComponentKind::Compartment, 4, 1, 8, None));
    v.push(socket(0xc5160892fb2c77498f63754882b9d0e4u128, ComponentKind::Compartment, 4, 1, 6, None));
    v.push(socket(0xad73bcc701b5324ab323fda953e3bfa9u128, ComponentKind::Compartment, 3, 1, 3, None));
    v.push(socket(0x19e7eac02433834a970371054660ed3fu128, ComponentKind::Compartment, 3, 1, 3, None));
    v.push(socket(0xe16a49ca238a544a82c11f7d978ecc90u128, ComponentKind::Module, 3, 3, 3, None));
    v.push(socket(0xe041f1e264213548be5aeb90b501797cu128, ComponentKind::Module, 8, 3, 6, None));
    v.push(socket(0x4d23cf5bd1027b4ebe306cd1d62d16bdu128, ComponentKind::Module, 2, 2, 2, None));
    v.push(socket(0x3013af19ace3e945a9b7638ecb8e2cefu128, ComponentKind::Module, 2, 2, 2, None));
    assert(v@.map_values(|s: HullSocketInfo| hull_socket_view(s)) =~= HullKey::SprinterCorvette.spec_sockets());
    v
}

fn raines_frigate_sockets() -> (r: Vec<HullSocketInfo>)
    ensures
        r@.map_values(|s: HullSocketInfo| hull_socket_view(s)) == HullKey::RainesFrigate.spec_sockets(),
{
    let mut v: Vec<HullSocketInfo> = Vec::new();
    v.push(socket(0x3c32a619fbe9ca43837375c70d0ed607u128, ComponentKind::Mount, 3, 4, 3, Some(Direction::Up)));
    v.push(socket(0x5b0306a98894ec4ea5a7b203e3ba61a8u128, ComponentKind::Mount, 3, 4, 3, Some(Direction::Down)));
    v.push(socket(0x8247c8c18ce7ee41a11ba316f6ec419bu128, ComponentKind::Mount, 3, 4, 5, Some(Direction::Up)));
    v.push(socket(0x0f7ce80743deb440bdef7894724fe635u128, ComponentKind::Mount, 3, 4, 5, Some(Direction::Down)));
    v.push(socket(0xf7c37e608ff55943acfbea8f625b7eeeu128, ComponentKind::Compartment, 4, 1, 6, None));
    v.push(socket(0xe93ce8ef6ebc304aa0c85c671af2ca52u128, ComponentKind::Compartment, 4, 1, 6, None));
    v.push(socket(0x3bf63e00973baf46a53a0dfaaef63a31u128, ComponentKind::Compartment, 3, 1, 3, None));
    v.push(socket(0xe403ce0f851f4a419d926f5659d02f2cu128, ComponentKind::Compartment, 3, 1, 3, None));
    v.push(socket(0x968ac04c58644e47994184e160e1daceu128, ComponentKind::Compartment, 4, 1, 6, None));
    v.push(socket(0x6d181495aa102744bb33dd7332974074u128, ComponentKind::Module, 6, 6, 6, None));
    v.push(socket(0x266b67c28d0a4248b943210f3e5047acu128, ComponentKind::Module, 8, 3, 6, None));
    v.push(socket(0x578dad5e26c84747b8bbaae22076193bu128, ComponentKind::Module, 2, 2, 2, None));
    v.push(socket(0xa7e9bb8a34baba4baacee053e4d13f94u128, ComponentKind::Module, 2, 2, 2, None));
    v.push(socket(0x7e802933ce214f41a9130e06685bf7f3u128, ComponentKind::Module, 3, 3, 3, None));
    assert(v@.map_values(|s: HullSocketInfo| hull_socket_view(s)) =~= HullKey::RainesFrigate.spec_sockets());
    v
}

fn keystone_destroyer_sockets() -> (r: Vec<HullSocketInfo>)
    ensures
        r@.map_values(|s: HullSocketInfo| hull_socket_view(s)) == HullKey::KeystoneDestroyer.spec_sockets(),
{
    let mut v: Vec<HullSocketInfo> = Vec::new();
    v.push(socket(0x369618024039674b801253a30e0dd16au128, ComponentKind::Mount, 3, 4, 5, Some(Direction::Up)));
    v.push(socket(0x7d262fe23e7e78439bc09115868052beu128, ComponentKind::Mount, 3, 4, 5, Some(Direction::Down)));
    v.push(socket(0xc76d6c69db61804d85b4359224a20d19u128, ComponentKind::Mount, 3, 4, 4, Some(Direction::Left)));
    v.push(socket(0x2312b0a58e5df4489c611453327f3157u128, ComponentKind::Mount, 3, 4, 4, Some(Direction::Right)));
    v.push(socket(0x269394f4c8165c499f2dc42800ae28b4u128, ComponentKind::Mount, 2, 2, 2, Some(Direction::Up)));
    v.push(socket(0x2c2a2c45b95d7540a33e881e27979278u128, ComponentKind::Mount, 2, 2, 2, Some(Direction::Down)));
    v.push(socket(0x8467a277dca4f341aa20de48525a7c6bu128, ComponentKind::Mount, 4, 12, 4, Some(Direction::Fore)));
    v.push(socket(0x3e5c9a09c8c3a34aaed79e49219826e8u128, ComponentKind::Compartment, 6, 1, 8, None));
    v.push(socket(0xcad446cbce17fe45b5a1d1d80812020du128, ComponentKind::Compartment, 6, 1, 8, None));
    v.push(socket(0xc8cdc09b83eac943880724caccceac3cu128, ComponentKind::Compartment, 6, 1, 4, None));
    v.push(socket(0x1f57a40b6fbd734d95c8d5d8e0878b60u128, ComponentKind::Compartment, 6, 1, 4, None));
    v.push(socket(0x967e5cfd9bdd09448c55664bffe9b7cbu128, ComponentKind::Compartment, 6, 1, 4, None));
    v.push(socket(0x1fea000496d8c34aa029de10cd4d1668u128, ComponentKind::Compartment, 6, 1, 4, None));
    v.push(socket(0xb4204475c214864e802fe5fab02ba3b1u128, ComponentKind::Compartment, 6, 1, 4, None));
    v.push(socket(0x01662f414676ea4db4c873ab5502a0e9u128, ComponentKind::Module, 6, 6, 6, None));
    v.push(socket(0xb661d3cfa1e4ac4f9152d37de16ea5c9u128, ComponentKind::Module, 8, 8, 6, None));
    v.push(socket(0x9b92758d074e7d428cf6becd66332928u128, ComponentKind::Module, 3, 3, 3, None));
    v.push(socket(0x876f5348d191a349bf0e6791af606a0fu128, ComponentKind::Module, 3, 3, 3, None));
    v.push(socket(0x13db0c084aae564f8d363e6178698895u128, ComponentKind::Module, 2, 2, 2, None));
    v.push(socket(0x831d9429eb4a5949b905f661883e6985u128, ComponentKind::Module, 2, 2, 2, None));
    v.push(socket(0x6494e66c6763024f9710a8a12181c4bbu128, ComponentKind::Module, 3, 3, 3, None));
    assert(v@.map_values(|s: HullSocketInfo| hull_socket_view(s)) =~= HullKey::KeystoneDestroyer.spec_sockets());
    v
}

fn vauxhall_light_cruiser_sockets() -> (r: Vec<HullSocketInfo>)
    ensures
        r@.map_values(|s: HullSocketInfo| hull_socket_view(s)) == HullKey::VauxhallLightCruiser.spec_sockets(),
{
    let mut v: Vec<HullSocketInfo> = Vec::new();
    v.push(socket(0x4fd11ba38d620347815cd631f2eca2b3u128, ComponentKind::Mount, 3, 4, 5, Some(Direction::Up)));
    v.push(socket(0xd9041dc42e1413428e338dabf36f844du128, ComponentKind::Mount, 3, 4, 5, Some(Direction::Down)));
    v.push(socket(0x20528cf44d386946874b422834331284u128, ComponentKind::Mount, 3, 4, 5, Some(Direction::Up)));
    v.push(socket(0xad7ea17aced4aa4c878c4c8a6c56964du128, ComponentKind::Mount, 3, 4, 5, Some(Direction::Up)));
    v.push(socket(0x051330baeb0a0b4d98adb15746bacdccu128, ComponentKind::Mount, 3, 4, 5, Some(Direction::Up)));
    v.push(socket(0xbced683e1952b948a1fdc740664dc7aau128, ComponentKind::Mount, 3, 4, 5, Some(Direction::Down)));
    v.push(socket(0x44b1d05057f6d34b8b663297e5ac6433u128, ComponentKind::Mount, 2, 2, 2, Some(Direction::Right)));
    v.push(socket(0xbb23c3834b43dd4e982b3d7c6d57643eu128, ComponentKind::Mount, 2, 2, 2, Some(Direction::Left)));
    v.push(socket(0x5e271fd134fba44685cbfc75ba4eee79u128, ComponentKind::Mount, 2, 2, 2, Some(Direction::Right)));
    v.push(socket(0x5d38351f53e8a64bb98315bcb1e8b95du128, ComponentKind::Mount, 2, 2, 2, Some(Direction::Left)));
    v.push(socket(0x6bc1feacfc954a4eae04eacfee541850u128, ComponentKind::Compartment, 6, 1, 8, None));
    v.push(socket(0x3416e7a477e90d4492e9b3600e54a3cfu128, ComponentKind::Compartment, 6, 1, 8, None));
    v.push(socket(0x7ff48eebca80194facc3af53f46116a3u128, ComponentKind::Compartment, 6, 1, 8, None));
    v.push(socket(0xf51d2d7e3b0dfa48844d404b7820a61bu128, ComponentKind::Compartment, 6, 1, 8, None));
    v.push(socket(0xf9b005e91e9a894d807e7f13fe8298e2u128, ComponentKind::Compartment, 6, 1, 4, None));
    v.push(socket(0xfbb1f75860f0c844832379641f305d19u128, ComponentKind::Compartment, 6, 1, 4, None));
    v.push(socket(0xa35a3958ea20504db9e58562e372a571u128, ComponentKind::Compartment, 4, 1, 8, None));
    v.push(socket(0x0c0703780d32b244a38def76098f85efu128, ComponentKind::Compartment, 6, 1, 4, None));
    v.push(socket(0x8cabc283d9d89a429f027e3e86dfd8e8u128, ComponentKind::Compartment, 6, 1, 8, None));
    v.push(socket(0xf1528c99b036dc49b57fe30164a3b6bcu128, ComponentKind::Module, 6, 6, 6, None));
    v.push(socket(0xb9d4233425a50346b092fe8b847e79b9u128, ComponentKind::Module, 3, 3, 3, None));
    v.push(socket(0xdde5d6524b165e4fb9abd316e76ae087u128, ComponentKind::Module, 8, 12, 10, None));
    v.push(socket(0xfe3a85c207f712429452a1f355689dcfu128, ComponentKind::Module, 3, 3, 3, None));
    v.push(socket(0xaae94b54552dce4d909bcad9b5fa450fu128, ComponentKind::Module, 2, 2, 2, None));
    v.push(socket(0x37f806516090c74994397f51685a08e8u128, ComponentKind::Module, 3, 3, 3, None));
    v.push(socket(0x1356526e9629664b9f0b289f62288af1u128, ComponentKind::Module, 2, 2, 2, None));
    v.push(socket(0xfa111361c98a1f479e5f3905a678607au128, ComponentKind::Module, 2, 2, 2, None));
    v.push(socket(0x854d8bf7755f414fa3bad9d10b474a83u128, ComponentKind::Module, 2, 2, 2, None));
    assert(v@.map_values(|s: HullSocketInfo| hull_socket_view(s)) =~= HullKey::VauxhallLightCruiser.spec_sockets());
    v
}

fn axford_heavy_cruiser_sockets() -> (r: Vec<HullSocketInfo>)
    ensures
        r@.map_values(|s: HullSocketInfo| hull_socket_view(s)) == HullKey::AxfordHeavyCruiser.spec_sockets(),
{
    let mut v: Vec<HullSocketInfo> = Vec::new();
    v.push(socket(0xc210cff6bb5bba42aca1c9ebaa7a9a2du128, ComponentKind::Mount, 6, 4, 6, Some(Direction::Up)));
    v.push(socket(0xf02b4228f2df64438e16f9b50e157ea1u128, ComponentKind::Mount, 6, 4, 6, Some(Direction::Up)));
    v.push(socket(0x37bc9161852e1b4b8ecdde5ab9f81588u128, ComponentKind::Mount, 8, 7, 8, Some(Direction::Down)));
    v.push(socket(0x958110a388c9bc41b146a25ad8c076e4u128, ComponentKind::Mount, 3, 4, 3, Some(Direction::Left)));
    v.push(socket(0xf6aade18fd88c342b0ba5a0da4d1534au128, ComponentKind::Mount, 3, 4, 3, Some(Direction::Left)));
    v.push(socket(0xbfd4aa6b90dc0a489b762dbd0246a436u128, ComponentKind::Mount, 3, 4, 3, Some(Direction::Right)));
    v.push(socket(0xdcca1e614c751d44bac4d0c132cb2c8au128, ComponentKind::Mount, 3, 4, 3, Some(Direction::Right)));
    v.push(socket(0x2db0fd4f17be4b46bf9ce0d3aadae4eeu128, ComponentKind::Mount, 2, 2, 2, Some(Direction::Up)));
    v.push(socket(0x2b1574864906044d803940a8e5ac506eu128, ComponentKind::Mount, 2, 2, 2, Some(Direction::Down)));
    v.push(socket(0xb72197aee7028d47b4155c8fd580e953u128, ComponentKind::Mount, 2, 2, 2, Some(Direction::Up)));
    v.push(socket(0xad766176d6cadc40bc2bf72eebeaff5eu128, ComponentKind::Mount, 2, 2, 2, Some(Direction::Up)));
    v.push(socket(0xca552f98048a9448b20adc82b0d44a5au128, ComponentKind::Compartment, 6, 1, 8, None));
    v.push(socket(0x4d7d9392d65eec4581f6cf8caa50d080u128, ComponentKind::Compartment, 6, 1, 8, None));
    v.push(socket(0x70cb348348375947992500126fba267bu128, ComponentKind::Compartment, 6, 1, 8, None));
    v.push(socket(0x887620dc3758014292fae201691a4da8u128, ComponentKind::Compartment, 6, 1, 8, None));
    v.push(socket(0x8f6493db261fc24dbfb4121ac88dec42u128, ComponentKind::Compartment, 6, 1, 4, None));
    v.push(socket(0x495ff8060731c14db86086dea7e93be2u128, ComponentKind::Compartment, 6, 1, 4, None));
    v.push(socket(0x03c7bf67f77c594daace8e874d0c0204u128, ComponentKind::Compartment, 4, 1, 6, None));
    v.push(socket(0xdb198e4b89ecfc468c623057aeb8618au128, ComponentKind::Compartment, 6, 1, 6, None));
    v.push(socket(0xcb5c4b8b1294cd448a4fb373eda5242du128, ComponentKind::Compartment, 6, 1, 6, None));
    v.push(socket(0x46651e78f6fef0419b15a460563097b0u128, ComponentKind::Compartment, 6, 1, 8, None));
    v.push(socket(0x798a7520f7eea54195213ae456181927u128, ComponentKind::Compartment, 4, 1, 6, None));
    v.push(socket(0x97192098dc2a8d4b9ad2c45e7b6a4326u128, ComponentKind::Module, 6, 6, 6, None));
    v.push(socket(0xfc0ba7f875be0e4386cad5666129f921u128, ComponentKind::Module, 6, 6, 6, None));
    v.push(socket(0xd992c426fc587f40804e5d65062ddcb9u128, ComponentKind::Module, 12, 8, 10, None));
    v.push(socket(0x6dafb7550fb318498309f535dae6aa68u128, ComponentKind::Module, 3, 3, 3, None));
    v.push(socket(0x850f8ccf29ecd143b8a0ca7b806d1df0u128, ComponentKind::Module, 3, 3, 3, None));
    v.push(socket(0xa320317e77a99041b8e958edbd0597a7u128, ComponentKind::Module, 3, 3, 3, None));
    v.push(socket(0x628f613f0e8c7f4eb4077beac123b818u128, ComponentKind::Module, 3, 3, 3, None));
    v.push(socket(0x0a0a5141afbaeb428479dd704d12f8bfu128, ComponentKind::Module, 2, 2, 2, None));
    v.push(socket(0x6b0c1d7839cdb341be45c7901754c1c8u128, ComponentKind::Module, 2, 2, 2, None));
    v.push(socket(0xb67643f81e4bb34a80c81b5dcf8ca84cu128, ComponentKind::Module, 2, 2, 2, None));
    v.push(socket(0x4bc00b72938c604a89a20d6fdaaf1431u128, ComponentKind::Module, 2, 2, 2, None));
    v.push(socket(0xad05844ec0c6744f8047c37734f7f05eu128, ComponentKind::Module, 2, 2, 2, None));
    assert(v@.map_values(|s: HullSocketInfo| hull_socket_view(s)) =~= HullKey::AxfordHeavyCruiser.spec_sockets());
    v
}

fn solomon_battleship_sockets() -> (r: Vec<HullSocketInfo>)
    ensures
        r@.map_values(|s: HullSocketInfo| hull_socket_view(s)) == HullKey::SolomonBattleship.spec_sockets(),
{
    let mut v: Vec<HullSocketInfo> = Vec::new();
    v.push(socket(0xbefa65fe957c0745b7ddeae7af0df58eu128, ComponentKind::Mount, 8, 7, 8, Some(Direction::Up)));
    v.push(socket(0x0339efa58d81cb41a243181e39392dc3u128, ComponentKind::Mount, 6, 4, 6, Some(Direction::Up)));
    v.push(socket(0x3799ccaed9386e48920f339f7c0988d7u128, ComponentKind::Mount, 8, 7, 8, Some(Direction::Up)));
    v.push(socket(0x1ec18384247f4f4287d5d77352748798u128, ComponentKind::Mount, 8, 7, 8, Some(Direction::Down)));
    v.push(socket(0xa1165899215db24d81141d373eac92dbu128, ComponentKind::Mount, 3, 4, 3, Some(Direction::Left)));
    v.push(socket(0x72c68d656f39be43bcb8843d5c37b58bu128, ComponentKind::Mount, 3, 4, 3, Some(Direction::Left)));
    v.push(socket(0x7811b4521ac18a4cb89d4c7cd6b3db2fu128, ComponentKind::Mount, 3, 4, 3, Some(Direction::Left)));
    v.push(socket(0x33a35a4af2da9b4e82fb50d382023df6u128, ComponentKind::Mount, 2, 2, 2, Some(Direction::Left)));
    v.push(socket(0xdc728d1addf4e540b6ddf193f0e29c2fu128, ComponentKind::Mount, 3, 4, 3, Some(Direction::Right)));
    v.push(socket(0x47f63e2d309cd24c9d97a2fc4aae439bu128, ComponentKind::Mount, 3, 4, 3, Some(Direction::Right)));
    v.push(socket(0xfa0b4ed1aa860c4387f939bad76c00a0u128, ComponentKind::Mount, 3, 4, 3, Some(Direction::Right)));
    v.push(socket(0xdfba19f3de17ee41b60ead04e6610a0du128, ComponentKind::Mount, 2, 2, 2, Some(Direction::Right)));
    v.push(socket(0x6631fa68f5e797478e76495a3ec44d00u128, ComponentKind::Mount, 2, 2, 2, Some(Direction::Up)));
    v.push(socket(0xe1d34aaf98bcec47831aaf5ca1a59826u128, ComponentKind::Mount, 2, 2, 2, Some(Direction::Down)));
    v.push(socket(0x5c06c63d73e00c4b8389e403a9b03d31u128, ComponentKind::Compartment, 6, 1, 8, None));
    v.push(socket(0x497f9ae09e1e7a4da7989ced5de3d4ddu128, ComponentKind::Compartment, 6, 1, 8, None));
    v.push(socket(0xe2c516c0fd15ba43856d74f560031af6u128, ComponentKind::Compartment, 6, 1, 8, None));
    v.push(socket(0xd3d01e9f1220a24ca4c0c4c2309cf6e3u128, ComponentKind::Compartment, 6, 1, 4, None));
    v.push(socket(0x46d65ef39b095243b96f5c557603e5a9u128, ComponentKind::Compartment, 6, 1, 4, None));
    v.push(socket(0xf1842fe87e5f3744b2943738a767d3fbu128, ComponentKind::Compartment, 6, 1, 4, None));
    v.push(socket(0xe8ff28847187fd468200c104e6316846u128, ComponentKind::Compartment, 6, 1, 4, None));
    v.push(socket(0xf344f4d3eef58b45b3fae364d38773bdu128, ComponentKind::Compartment, 6, 1, 4, None));
    v.push(socket(0x19b18d4ba645a34ab1f9dc6e1266536eu128, ComponentKind::Compartment, 6, 1, 8, None));
    v.push(socket(0xb64b7d24f03657409600ef837e3f051du128, ComponentKind::Compartment, 6, 1, 4, None));
    v.push(socket(0x4243bbe99d8f014abc883e1cb9cfcfe0u128, ComponentKind::Compartment, 6, 1, 4, None));
    v.push(socket(0x969df57229d62c4f991a0b62b2ea1abau128, ComponentKind::Compartment, 6, 1, 8, None));
    v.push(socket(0xc1b815ba9767cc41a57ba7fcb5ecd961u128, ComponentKind::Compartment, 6, 1, 8, None));
    v.push(socket(0x265e479acb0fe34e80bbb9f834771e43u128, ComponentKind::Compartment, 6, 1, 8, None));
    v.push(socket(0xfb06b953f85dc34987288d4f8250de1au128, ComponentKind::Compartment, 6, 1, 8, None));
    v.push(socket(0xf7b97f7ff92d6f4ca812ab886bbe6272u128, ComponentKind::Compartment, 6, 1, 8, None));
    v.push(socket(0x0b3fdc9bc691b74991898c5dab6e95ecu128, ComponentKind::Module, 8, 8, 8, None));
    v.push(socket(0x78ebe627adb97f4c866af600498b5861u128, ComponentKind::Module, 8, 8, 8, None));
    v.push(socket(0xd48e564405f4a14eb322fef212fa9f99u128, ComponentKind::Module, 16, 8, 10, None));
    v.push(socket(0xf7c6996189eb5d458a5e17945c7a0b2fu128, ComponentKind::Module, 12, 8, 10, None));
    v.push(socket(0x715b0b77199efe41925368d69589d7ceu128, ComponentKind::Module, 3, 3, 3, None));
    v.push(socket(0xad659764d9db2948bb7630cf68a4edb5u128, ComponentKind::Module, 3, 3, 3, None));
    v.push(socket(0xb60583f1f6ce0445aae0a7ef60337f05u128, ComponentKind::Module, 3, 3, 3, None));
    v.push(socket(0xe307dee876c1f6408dec20dc17bfcf39u128, ComponentKind::Module, 3, 3, 3, None));
    v.push(socket(0xc80836c140a42746ba11fde6f7a5b263u128, ComponentKind::Module, 3, 3, 3, None));
    v.push(socket(0xad36d89327305a4bbe61ed4508125bbfu128, ComponentKind::Module, 3, 3, 3, None));
    v.push(socket(0xf9aa367c193ece42b74137551f87ea1cu128, ComponentKind::Module, 3, 3, 3, None));
    v.push(socket(0xe6538542a2dffa4390ab4cdb22fd0c2bu128, ComponentKind::Module, 2, 2, 2, None));
    v.push(socket(0x3d65919cd4e8eb40b1f5f6826d4871fau128, ComponentKind::Module, 2, 2, 2, None));
    v.push(socket(0xdf58a58058b67f449cbc96c589af8ea6u128, ComponentKind::Module, 2, 2, 2, None));
    v.push(socket(0x323245cdc9a9da408b4569a30b7d1328u128, ComponentKind::Module, 2, 2, 2, None));
    assert(v@.map_values(|s: HullSocketInfo| hull_socket_view(s)) =~= HullKey::SolomonBattleship.spec_sockets());
    v
}

fn shuttle_clipper_sockets() -> (r: Vec<HullSocketInfo>)
    ensures
        r@.map_values(|s: HullSocketInfo| hull_socket_view(s)) == HullKey::ShuttleClipper.spec_sockets(),
{
    let mut v: Vec<HullSocketInfo> = Vec::new();
    v.push(socket(0xde694203a0ba9b4188df038d64afdaaau128, ComponentKind::Mount, 3, 2, 3, Some(Direction::Up)));
    v.push(socket(0x7db0201ccf6edf4da97853120b44e275u128, ComponentKind::Mount, 3, 2, 3, Some(Direction::Down)));
    v.push(socket(0xadb66118237b51459c80bb0d66465720u128, ComponentKind::Mount, 2, 2, 2, Some(Direction::Up)));
    v.push(socket(0x861f0f034d63c44cad9fd2ae8a1709ddu128, ComponentKind::Compartment, 4, 1, 6, None));
    v.push(socket(0xc0358079ea002b4980c7785b175b4c94u128, ComponentKind::Compartment, 3, 1, 3, None));
    v.push(socket(0x09c4978c8ba95742b0fa3c5a57a1e910u128, ComponentKind::Compartment, 3, 1, 3, None));
    v.push(socket(0x6c89f2879000b74cbf9bedd4688f18b3u128, ComponentKind::Module, 3, 3, 3, None));
    v.push(socket(0xfa16ab3300f4a34384c6e32a4faddf4du128, ComponentKind::Module, 8, 3, 6, None));
    v.push(socket(0xcd4783378169604cb25872214c881916u128, ComponentKind::Module, 2, 2, 2, None));
    v.push(socket(0xb9727f7efb19dd4480b354a9893ad9d6u128, ComponentKind::Module, 2, 2, 2, None));
    assert(v@.map_values(|s: HullSocketInfo| hull_socket_view(s)) =~= HullKey::ShuttleClipper.spec_sockets());
    v
}

fn tugboat_clipper_sockets() -> (r: Vec<HullSocketInfo>)
    ensures
        r@.map_values(|s: HullSocketInfo| hull_socket_view(s)) == HullKey::TugboatClipper.spec_sockets(),
{
    let mut v: Vec<HullSocketInfo> = Vec::new();
    v.push(socket(0xd37bf1ada946ab4085c755cac6339c04u128, ComponentKind::Mount, 2, 5, 2, Some(Direction::Fore)));
    v.push(socket(0x7081aca4ce28614d9eb517e321cb8208u128, ComponentKind::Mount, 3, 2, 5, Some(Direction::Up)));
    v.push(socket(0xd2ea4e826d07d14b99fa1d98bd18e606u128, ComponentKind::Mount, 3, 2, 5, Some(Direction::Down)));
    v.push(socket(0x2a71474246fdb947bdf08c1e2d87fdc2u128, ComponentKind::Mount, 2, 2, 2, Some(Direction::Right)));
    v.push(socket(0xe64776d2119cc54b93958fba2586ae74u128, ComponentKind::Mount, 2, 2, 2, Some(Direction::Left)));
    v.push(socket(0x17a6e625d08edc4ab35caf52049a1753u128, ComponentKind::Compartment, 4, 1, 6, None));
    v.push(socket(0xf8faa82ca8a6494399b4a30ba394075eu128, ComponentKind::Compartment, 4, 1, 6, None));
    v.push(socket(0x0da90a4b6832e94c8ce7cbb7606f877du128, ComponentKind::Compartment, 3, 1, 3, None));
    v.push(socket(0xa5ea9a62b137f54ba95825cf63f3e0a0u128, ComponentKind::Compartment, 3, 1, 3, None));
    v.push(socket(0xe8e89e487d00ea42859aab9cb67f7f69u128, ComponentKind::Compartment, 4, 1, 6, None));
    v.push(socket(0x35201b867f5bac4f9a022ac9148606f9u128, ComponentKind::Module, 6, 6, 6, None));
    v.push(socket(0xfea94ff2bb14a54889a6445cd6d7233du128, ComponentKind::Module, 8, 3, 6, None));
    v.push(socket(0x44c0d34652131949b56606c8816ab55fu128, ComponentKind::Module, 2, 2, 2, None));
    v.push(socket(0xbfbbe77b1235c547a6692992927d1034u128, ComponentKind::Module, 2, 2, 2, None));
    assert(v@.map_values(|s: HullSocketInfo| hull_socket_view(s)) =~= HullKey::TugboatClipper.spec_sockets());
    v
}

fn cargo_feeder_monitor_sockets() -> (r: Vec<HullSocketInfo>)
    ensures
        r@.map_values(|s: HullSocketInfo| hull_socket_view(s)) == HullKey::CargoFeederMonitor.spec_sockets(),
{
    let mut v: Vec<HullSocketInfo> = Vec::new();
    v.push(socket(0xe15eadc2b214704284d75b689beb435du128, ComponentKind::Mount, 6, 12, 6, Some(Direction::Fore)));
    v.push(socket(0xc8dedffbdb445c42a504db24a8fe846cu128, ComponentKind::Mount, 6, 4, 6, Some(Direction::Up)));
    v.push(socket(0x676b83b37e09f844aeeb8fa2f581a7c5u128, ComponentKind::Mount, 6, 4, 6, Some(Direction::Down)));
    v.push(socket(0x81bebfde45816342a511679ec77aee0eu128, ComponentKind::Mount, 3, 2, 5, Some(Direction::Right)));
    v.push(socket(0xff2f8177e1168d478c22b9b31b7531bdu128, ComponentKind::Mount, 3, 2, 5, Some(Direction::Left)));
    v.push(socket(0x803420866e628a4dacc9872826a50f16u128, ComponentKind::Compartment, 6, 1, 8, None));
    v.push(socket(0xbed99ef37097834a83038fd82ba36ac0u128, ComponentKind::Compartment, 6, 3, 8, None));
    v.push(socket(0x4d333c3be3140e4cb4ebffcbc2f4a8f3u128, ComponentKind::Compartment, 6, 1, 3, None));
    v.push(socket(0xac6545809f06c9478fa11933df7735b3u128, ComponentKind::Compartment, 6, 1, 3, None));
    v.push(socket(0xfe152f8fcf7d1a458fd1b9e30cdd4e0fu128, ComponentKind::Compartment, 6, 3, 8, None));
    v.push(socket(0x3782883ac36a794195014af1e4e5b70du128, ComponentKind::Compartment, 6, 3, 8, None));
    v.push(socket(0xf4aff564d0a01444abbdaa1030e1f7cbu128, ComponentKind::Module, 6, 6, 6, None));
    v.push(socket(0x1cdbfa07eefc144ba157c613f40eae67u128, ComponentKind::Module, 10, 5, 8, None));
    v.push(socket(0x1ef74406c9e9514ca93cde2e5baee969u128, ComponentKind::Module, 3, 3, 3, None));
    v.push(socket(0x8837657c5c0a9143bd1dbba6cf299c78u128, ComponentKind::Module, 3, 3, 3, None));
    v.push(socket(0x0daa96117fbc804788cd8ae1a7c34833u128, ComponentKind::Module, 3, 3, 3, None));
    v.push(socket(0x12f67a24de7157469494a11e78ac454du128, ComponentKind::Module, 2, 2, 2, None));
    v.push(socket(0x094fe8adaa89c44681ddd4f3656d8c90u128, ComponentKind::Module, 2, 2, 2, None));
    assert(v@.map_values(|s: HullSocketInfo| hull_socket_view(s)) =~= HullKey::CargoFeederMonitor.spec_sockets());
    v
}

fn ocello_command_cruiser_sockets() -> (r: Vec<HullSocketInfo>)
    ensures
        r@.map_values(|s: HullSocketInfo| hull_socket_view(s)) == HullKey::OcelloCommandCruiser.spec_sockets(),
{
    let mut v: Vec<HullSocketInfo> = Vec::new();
    v.push(socket(0x889cf3c629d2374b89223aedf4cdda18u128, ComponentKind::Mount, 6, 4, 6, Some(Direction::Up)));
    v.push(socket(0x950ec6a652758a45b42bf4215caec6bcu128, ComponentKind::Mount, 6, 4, 6, Some(Direction::Up)));
    v.push(socket(0xeb45feed54a5c54aba41ab3e2b0b3330u128, ComponentKind::Mount, 6, 4, 6, Some(Direction::Down)));
    v.push(socket(0xe2fe5ed35fa01148933674097af3691au128, ComponentKind::Mount, 3, 4, 3, Some(Direction::Left)));
    v.push(socket(0xa3bf2379b2f69e47b35dd1c9eb103758u128, ComponentKind::Mount, 3, 4, 3, Some(Direction::Right)));
    v.push(socket(0x1a99b628528f094fb41022abd18b0903u128, ComponentKind::Mount, 3, 4, 3, Some(Direction::Up)));
    v.push(socket(0xfa5c057b2bc35040b20be02e55f013a2u128, ComponentKind::Mount, 3, 4, 3, Some(Direction::Down)));
    v.push(socket(0xac8e64ef2b591f44bbc902d99c507f9du128, ComponentKind::Mount, 2, 2, 2, Some(Direction::Up)));
    v.push(socket(0xd09f69c9e169e94e8a3040178ae3471fu128, ComponentKind::Mount, 2, 2, 2, Some(Direction::Down)));
    v.push(socket(0x98fe57a076775a4f83b0593760b031ceu128, ComponentKind::Mount, 2, 2, 2, Some(Direction::Left)));
    v.push(socket(0xc5eecb353ad2b54b92f0f3029fa298b1u128, ComponentKind::Mount, 2, 2, 2, Some(Direction::Right)));
    v.push(socket(0xe0d2813acb30c941a9540f983fe4f99eu128, ComponentKind::Compartment, 6, 1, 8, None));
    v.push(socket(0x6f346058dac1744e818d4686cbc1b5b6u128, ComponentKind::Compartment, 6, 1, 8, None));
    v.push(socket(0x7e85a25c9642104290c742e63b520c9fu128, ComponentKind::Compartment, 6, 1, 8, None));
    v.push(socket(0xbe20b7f01b8e684bb24e554345d17482u128, ComponentKind::Compartment, 6, 1, 8, None));
    v.push(socket(0x19723160f7e4f04d9c6d09cad14d5037u128, ComponentKind::Compartment, 4, 1, 6, None));
    v.push(socket(0xab98872edf55114fb5ebac783499abe1u128, ComponentKind::Compartment, 6, 1, 6, None));
    v.push(socket(0xbd75d9034daa404cab7824856ed2c938u128, ComponentKind::Compartment, 6, 1, 6, None));
    v.push(socket(0x4b4dda5a37d7f747a96c2732b6ef7fc7u128, ComponentKind::Compartment, 6, 1, 6, None));
    v.push(socket(0x6889a00fa8dcab41995d18b9326c9e5bu128, ComponentKind::Compartment, 6, 1, 6, None));
    v.push(socket(0x8631f1cec1b98940a4686d1e19de766cu128, ComponentKind::Module, 6, 6, 6, None));
    v.push(socket(0x169ebf37212ad44f9919e67133d92352u128, ComponentKind::Module, 6, 6, 6, None));
    v.push(socket(0xf97c1a38c37a7944accedbf2c2b99755u128, ComponentKind::Module, 8, 12, 10, None));
    v.push(socket(0xdba9b155e39d774481e5949a1bf849d3u128, ComponentKind::Module, 3, 3, 3, None));
    v.push(socket(0x736ccc2daa24994e865093187d2dcdfdu128, ComponentKind::Module, 3, 3, 3, None));
    v.push(socket(0xb77ff76bc7256e4cb60d06b483f38382u128, ComponentKind::Module, 3, 3, 3, None));
    v.push(socket(0xef7c75216f9c714488ff46c87163053fu128, ComponentKind::Module, 2, 2, 2, None));
    v.push(socket(0x2cd8674ce69f95468b3f1bdca4472d1au128, ComponentKind::Module, 2, 2, 2, None));
    v.push(socket(0xc8f544583ab0d043aa176239feef844cu128, ComponentKind::Module, 2, 2, 2, None));
    v.push(socket(0x143b98c38ca05348a4eb0420eab5b642u128, ComponentKind::Module, 2, 2, 2, None));
    assert(v@.map_values(|s: HullSocketInfo| hull_socket_view(s)) =~= HullKey::OcelloCommandCruiser.spec_sockets());
    v
}

fn bulk_freighter_line_ship_sockets() -> (r: Vec<HullSocketInfo>)
    ensures
        r@.map_values(|s: HullSocketInfo| hull_socket_view(s)) == HullKey::BulkFreighterLineShip.spec_sockets(),
{
    let mut v: Vec<HullSocketInfo> = Vec::new();
    v.push(socket(0x13d20c503fd4cf4ebad7e9d880987832u128, ComponentKind::Mount, 6, 10, 6, Some(Direction::Left)));
    v.push(socket(0x6ae43b8a319e5f47af76291941e0714eu128, ComponentKind::Mount, 6, 10, 6, Some(Direction::Right)));
    v.push(socket(0x77737e07f2670d428075544127a9ef15u128, ComponentKind::Mount, 6, 10, 6, Some(Direction::Left)));
    v.push(socket(0xc6f353d7f0d8714b92a54eabae62ffe0u128, ComponentKind::Mount, 6, 10, 6, Some(Direction::Right)));
    v.push(socket(0xb744f809200f9c4ab8aef1c0565f38f9u128, ComponentKind::Mount, 6, 10, 6, Some(Direction::Right)));
    v.push(socket(0x82b6018f1212dc4fbe966aea7a7b8af0u128, ComponentKind::Mount, 6, 10, 6, Some(Direction::Left)));
    v.push(socket(0xf2996d19ec47004c852f696339ed2831u128, ComponentKind::Mount, 6, 10, 6, Some(Direction::Left)));
    v.push(socket(0xb5c41f8fa5ce1d4585480c7f5b471cd4u128, ComponentKind::Mount, 6, 10, 6, Some(Direction::Right)));
    v.push(socket(0x6f1becbe0e739e4e93aa220aabc1f492u128, ComponentKind::Mount, 3, 4, 3, Some(Direction::Down)));
    v.push(socket(0xf4417dbb45757947ad95e06791084790u128, ComponentKind::Mount, 3, 4, 3, Some(Direction::Up)));
    v.push(socket(0x23af2d36783e2b4c86f80a14c741dc4bu128, ComponentKind::Mount, 3, 4, 3, Some(Direction::Down)));
    v.push(socket(0x49be7e552bb09645a94fa562462277beu128, ComponentKind::Mount, 3, 4, 3, Some(Direction::Up)));
    v.push(socket(0xe9988e0e7a17aa468d5af6aac868e7c2u128, ComponentKind::Mount, 3, 4, 3, Some(Direction::Up)));
    v.push(socket(0xf3b3d2820f4644498653d3084405d786u128, ComponentKind::Mount, 3, 4, 3, None));
    v.push(socket(0x54342164fa3eae45a4cf0a336addbb7fu128, ComponentKind::Mount, 3, 4, 3, None));
    v.push(socket(0xcb50acf0b474294c822940090483b23au128, ComponentKind::Compartment, 8, 3, 8, None));
    v.push(socket(0x7d8a17d9a9939742ab66eacf2a353d82u128, ComponentKind::Compartment, 8, 3, 8, None));
    v.push(socket(0xdcacbc3ef771a9428c45765ad312c5d8u128, ComponentKind::Compartment, 8, 3, 8, None));
    v.push(socket(0x4fd4cdd1962e994682c5c4918cefea4fu128, ComponentKind::Compartment, 8, 1, 8, None));
    v.push(socket(0x4f877ef169c0fd488748987a3d7897a4u128, ComponentKind::Compartment, 8, 1, 8, None));
    v.push(socket(0xe8ba432f6ed0b845b43d90a6df9371e7u128, ComponentKind::Compartment, 8, 1, 8, None));
    v.push(socket(0x40838542941228448874dcdffc9105c8u128, ComponentKind::Compartment, 8, 1, 8, None));
    v.push(socket(0x15570f21c57fd347aeeb635040ade82eu128, ComponentKind::Compartment, 8, 1, 8, None));
    v.push(socket(0xd45ad3279a3ce74ca796ae1d44398c6cu128, ComponentKind::Compartment, 8, 1, 8, None));
    v.push(socket(0xbcecf31e8e0a7c4eb4c19dd0d6cdfc18u128, ComponentKind::Module, 12, 12, 12, None));
    v.push(socket(0xe9ebd675e2c64f4b802ded3be7e9e183u128, ComponentKind::Module, 6, 6, 6, None));
    v.push(socket(0x25508b7f744a2943811176965a454b33u128, ComponentKind::Module, 3, 3, 3, None));
    v.push(socket(0x247262db2e57b24cada70e7e41bbbde4u128, ComponentKind::Module, 3, 3, 3, None));
    v.push(socket(0xcabc8761780c584cbdebd811b9a0ceebu128, ComponentKind::Module, 3, 3, 3, None));
    v.push(socket(0x33799cec0e16394fb67eae5781148408u128, ComponentKind::Module, 3, 3, 3, None));
    v.push(socket(0x4bead0a35f6bdb42b42f43d17abdf233u128, ComponentKind::Module, 3, 3, 3, None));
    v.push(socket(0x310c9380e2c60a4c9e96376f6e49050cu128, ComponentKind::Module, 3, 3, 3, None));
    assert(v@.map_values(|s: HullSocketInfo| hull_socket_view(s)) =~= HullKey::BulkFreighterLineShip.spec_sockets());
    v
}

fn container_liner_line_ship_sockets() -> (r: Vec<HullSocketInfo>)
    ensures
        r@.map_values(|s: HullSocketInfo| hull_socket_view(s)) == HullKey::ContainerLinerLineShip.spec_sockets(),
{
    let mut v: Vec<HullSocketInfo> = Vec::new();
    v.push(socket(0xb8b1c3c232c57a4b98698de1d09c19a1u128, ComponentKind::Mount, 20, 5, 30, None));
    v.push(socket(0xe3848cc1949b464390c90989e39f18d5u128, ComponentKind::Mount, 20, 5, 30, None));
    v.push(socket(0x564383c3efb4ce4f8ae0591a8e93e3c1u128, ComponentKind::Mount, 20, 5, 20, None));
    v.push(socket(0x17e9c73599b86745993096a4240c253fu128, ComponentKind::Mount, 20, 5, 20, None));
    v.push(socket(0xcbbd071ee2d6774ba984ed87fa1bd919u128, ComponentKind::Mount, 3, 4, 3, Some(Direction::Up)));
    v.push(socket(0x3637d53c57c9a949a4c3e011ff62818eu128, ComponentKind::Mount, 3, 4, 3, Some(Direction::Down)));
    v.push(socket(0x4dc4b9f5c53c5f46849b776cecdaa2c6u128, ComponentKind::Mount, 3, 4, 3, None));
    v.push(socket(0xdd61270ca89b634f9626fb6af7eb66b8u128, ComponentKind::Mount, 3, 4, 3, None));
    v.push(socket(0xe876db02d2c51943a2fa4ab4e84ad074u128, ComponentKind::Mount, 3, 4, 3, None));
    v.push(socket(0x6c5e22b2389e3b49b43ec3a513ece091u128, ComponentKind::Mount, 3, 4, 3, None));
    v.push(socket(0x2ae29302208ce74b8857b5d5d52f30afu128, ComponentKind::Mount, 3, 4, 3, None));
    v.push(socket(0xcb50acf0b474294c822940090483b23au128, ComponentKind::Compartment, 8, 3, 8, None));
    v.push(socket(0x896881afdb82c94081b9bf88216d9b66u128, ComponentKind::Compartment, 8, 3, 8, None));
    v.push(socket(0x42176da2f713934592a4c014b01205e9u128, ComponentKind::Compartment, 8, 3, 8, None));
    v.push(socket(0x4fd4cdd1962e994682c5c4918cefea4fu128, ComponentKind::Compartment, 8, 1, 8, None));
    v.push(socket(0x4f877ef169c0fd488748987a3d7897a4u128, ComponentKind::Compartment, 8, 1, 8, None));
    v.push(socket(0x86cf9268fa5e854bbc65bc2cb894af5fu128, ComponentKind::Compartment, 8, 1, 8, None));
    v.push(socket(0x8e1634465ab12e45baf5c9450865c42cu128, ComponentKind::Compartment, 8, 1, 8, None));
    v.push(socket(0x384f2a55c7086041b07ef257b22160a0u128, ComponentKind::Compartment, 8, 1, 8, None));
    v.push(socket(0x5009808f7f4cdc4db33e7557178ea464u128, ComponentKind::Compartment, 8, 1, 8, None));
    v.push(socket(0xcb19d0c5eb941d43b6da99be2d0bb80au128, ComponentKind::Module, 12, 12, 12, None));
    v.push(socket(0xfee110cc7291cc4aaa22a6b573cc0973u128, ComponentKind::Module, 6, 6, 6, None));
    v.push(socket(0x3347b0be298b294daf5e8ce764d0e861u128, ComponentKind::Module, 3, 3, 3, None));
    v.push(socket(0x717a416a5df6a74f91da903a84dd39ebu128, ComponentKind::Module, 3, 3, 3, None));
    v.push(socket(0x398ef6e95eeb01428347dd8c40cee09du128, ComponentKind::Module, 3, 3, 3, None));
    v.push(socket(0x4a6502d0973d144b8278a73f64933122u128, ComponentKind::Module, 3, 3, 3, None));
    assert(v@.map_values(|s: HullSocketInfo| hull_socket_view(s)) =~= HullKey::ContainerLinerLineShip.spec_sockets());
    v
}

} // verus!

verus! {

/// Every hull socket's key is masked: it sets no bit outside
/// [`Key::mask_key`].
pub proof fn lemma_socket_keys_masked(h: HullKey, i: int)
    requires
        0 <= i < h.spec_sockets().len(),
    ensures
        h.spec_sockets()[i].0 & !Key::spec_mask() == 0,
{
    assert(
        0x01662f414676ea4db4c873ab5502a0e9u128 & !0xffff_ffff_ffff_ff4f_bfff_ffff_ffff_ffffu128 == 0 &&
        0x0339efa58d81cb41a243181e39392dc3u128 & !0xffff_ffff_ffff_ff4f_bfff_ffff_ffff_ffffu128 == 0 &&
        0x03c7bf67f77c594daace8e874d0c0204u128 & !0xffff_ffff_ffff_ff4f_bfff_ffff_ffff_ffffu128 == 0 &&
        0x051330baeb0a0b4d98adb15746bacdccu128 & !0xffff_ffff_ffff_ff4f_bfff_ffff_ffff_ffffu128 == 0 &&
        0x094fe8adaa89c44681ddd4f3656d8c90u128 & !0xffff_ffff_ffff_ff4f_bfff_ffff_ffff_ffffu128 == 0 &&
        0x09c4978c8ba95742b0fa3c5a57a1e910u128 & !0xffff_ffff_ffff_ff4f_bfff_ffff_ffff_ffffu128 == 0 &&
        0x0a0a5141afbaeb428479dd704d12f8bfu128 & !0xffff_ffff_ffff_ff4f_bfff_ffff_ffff_ffffu128 == 0 &&
        0x0b3fdc9bc691b74991898c5dab6e95ecu128 & !0xffff_ffff_ffff_ff4f_bfff_ffff_ffff_ffffu128 == 0 &&
        0x0c0703780d32b244a38def76098f85efu128 & !0xffff_ffff_ffff_ff4f_bfff_ffff_ffff_ffffu128 == 0 &&
        0x0da90a4b6832e94c8ce7cbb7606f877du128 & !0xffff_ffff_ffff_ff4f_bfff_ffff_ffff_ffffu128 == 0 &&
        0x0daa96117fbc804788cd8ae1a7c34833u128 & !0xffff_ffff_ffff_ff4f_bfff_ffff_ffff_ffffu128 == 0 &&
        0x0f7ce80743deb440bdef7894724fe635u128 & !0xffff_ffff_ffff_ff4f_bfff_ffff_ffff_ffffu128 == 0 &&
        0x12f67a24de7157469494a11e78ac454du128 & !0xffff_ffff_ffff_ff4f_bfff_ffff_ffff_ffffu128 == 0 &&
        0x1356526e9629664b9f0b289f62288af1u128 & !0xffff_ffff_ffff_ff4f_bfff_ffff_ffff_ffffu128 == 0 &&
        0x13d20c503fd4cf4ebad7e9d880987832u128 & !0xffff_ffff_ffff_ff4f_bfff_ffff_ffff_ffffu128 == 0 &&
        0x13db0c084aae564f8d363e6178698895u128 & !0xffff_ffff_ffff_ff4f_bfff_ffff_ffff_ffffu128 == 0 &&
        0x143b98c38ca05348a4eb0420eab5b642u128 & !0xffff_ffff_ffff_ff4f_bfff_ffff_ffff_ffffu128 == 0 &&
        0x15570f21c57fd347aeeb635040ade82eu128 & !0xffff_ffff_ffff_ff4f_bfff_ffff_ffff_ffffu128 == 0 &&
        0x169ebf37212ad44f9919e67133d92352u128 & !0xffff_ffff_ffff_ff4f_bfff_ffff_ffff_ffffu128 == 0 &&
        0x17a6e625d08edc4ab35caf52049a1753u128 & !0xffff_ffff_ffff_ff4f_bfff_ffff_ffff_ffffu128 == 0 &&
        0x17e9c73599b86745993096a4240c253fu128 & !0xffff_ffff_ffff_ff4f_bfff_ffff_ffff_ffffu128 == 0 &&
        0x19723160f7e4f04d9c6d09cad14d5037u128 & !0xffff_ffff_ffff_ff4f_bfff_ffff_ffff_ffffu128 == 0 &&
        0x19b18d4ba645a34ab1f9dc6e1266536eu128 & !0xffff_ffff_ffff_ff4f_bfff_ffff_ffff_ffffu128 == 0 &&
        0x19e7eac02433834a970371054660ed3fu128 & !0xffff_ffff_ffff_ff4f_bfff_ffff_ffff_ffffu128 == 0 &&
        0x1a99b628528f094fb41022abd18b0903u128 & !0xffff_ffff_ffff_ff4f_bfff_ffff_ffff_ffffu128 == 0 &&
        0x1cdbfa07eefc144ba157c613f40eae67u128 & !0xffff_ffff_ffff_ff4f_bfff_ffff_ffff_ffffu128 == 0 &&
        0x1ec18384247f4f4287d5d77352748798u128 & !0xffff_ffff_ffff_ff4f_bfff_ffff_ffff_ffffu128 == 0 &&
        0x1ef74406c9e9514ca93cde2e5baee969u128 & !0xffff_ffff_ffff_ff4f_bfff_ffff_ffff_ffffu128 == 0 &&
        0x1f57a40b6fbd734d95c8d5d8e0878b60u128 & !0xffff_ffff_ffff_ff4f_bfff_ffff_ffff_ffffu128 == 0 &&
        0x1fea000496d8c34aa029de10cd4d1668u128 & !0xffff_ffff_ffff_ff4f_bfff_ffff_ffff_ffffu128 == 0 &&
        0x20528cf44d386946874b422834331284u128 & !0xffff_ffff_ffff_ff4f_bfff_ffff_ffff_ffffu128 == 0 &&
        0x21474d495666d84bbd9f71791e74809eu128 & !0xffff_ffff_ffff_ff4f_bfff_ffff_ffff_ffffu128 == 0 &&
        0x2312b0a58e5df4489c611453327f3157u128 & !0xffff_ffff_ffff_ff4f_bfff_ffff_ffff_ffffu128 == 0 &&
        0x23af2d36783e2b4c86f80a14c741dc4bu128 & !0xffff_ffff_ffff_ff4f_bfff_ffff_ffff_ffffu128 == 0 &&
        0x247262db2e57b24cada70e7e41bbbde4u128 & !0xffff_ffff_ffff_ff4f_bfff_ffff_ffff_ffffu128 == 0 &&
        0x25508b7f744a2943811176965a454b33u128 & !0xffff_ffff_ffff_ff4f_bfff_ffff_ffff_ffffu128 == 0 &&
        0x265e479acb0fe34e80bbb9f834771e43u128 & !0xffff_ffff_ffff_ff4f_bfff_ffff_ffff_ffffu128 == 0 &&
        0x266b67c28d0a4248b943210f3e5047acu128 & !0xffff_ffff_ffff_ff4f_bfff_ffff_ffff_ffffu128 == 0 &&
        0x269394f4c8165c499f2dc42800ae28b4u128 & !0xffff_ffff_ffff_ff4f_bfff_ffff_ffff_ffffu128 == 0 &&
        0x2a71474246fdb947bdf08c1e2d87fdc2u128 & !0xffff_ffff_ffff_ff4f_bfff_ffff_ffff_ffffu128 == 0 &&
        0x2ae29302208ce74b8857b5d5d52f30afu128 & !0xffff_ffff_ffff_ff4f_bfff_ffff_ffff_ffffu128 == 0 &&
        0x2b1574864906044d803940a8e5ac506eu128 & !0xffff_ffff_ffff_ff4f_bfff_ffff_ffff_ffffu128 == 0 &&
        0x2c2a2c45b95d7540a33e881e27979278u128 & !0xffff_ffff_ffff_ff4f_bfff_ffff_ffff_ffffu128 == 0 &&
        0x2cd8674ce69f95468b3f1bdca4472d1au128 & !0xffff_ffff_ffff_ff4f_bfff_ffff_ffff_ffffu128 == 0 &&
        0x2db0fd4f17be4b46bf9ce0d3aadae4eeu128 & !0xffff_ffff_ffff_ff4f_bfff_ffff_ffff_ffffu128 == 0 &&
        0x3013af19ace3e945a9b7638ecb8e2cefu128 & !0xffff_ffff_ffff_ff4f_bfff_ffff_ffff_ffffu128 == 0 &&
        0x310c9380e2c60a4c9e96376f6e49050cu128 & !0xffff_ffff_ffff_ff4f_bfff_ffff_ffff_ffffu128 == 0 &&
        0x323245cdc9a9da408b4569a30b7d1328u128 & !0xffff_ffff_ffff_ff4f_bfff_ffff_ffff_ffffu128 == 0 &&
        0x3347b0be298b294daf5e8ce764d0e861u128 & !0xffff_ffff_ffff_ff4f_bfff_ffff_ffff_ffffu128 == 0 &&
        0x33799cec0e16394fb67eae5781148408u128 & !0xffff_ffff_ffff_ff4f_bfff_ffff_ffff_ffffu128 == 0 &&
        0x33a35a4af2da9b4e82fb50d382023df6u128 & !0xffff_ffff_ffff_ff4f_bfff_ffff_ffff_ffffu128 == 0 &&
        0x3416e7a477e90d4492e9b3600e54a3cfu128 & !0xffff_ffff_ffff_ff4f_bfff_ffff_ffff_ffffu128 == 0 &&
        0x35201b867f5bac4f9a022ac9148606f9u128 & !0xffff_ffff_ffff_ff4f_bfff_ffff_ffff_ffffu128 == 0 &&
        0x3637d53c57c9a949a4c3e011ff62818eu128 & !0xffff_ffff_ffff_ff4f_bfff_ffff_ffff_ffffu128 == 0 &&
        0x369618024039674b801253a30e0dd16au128 & !0xffff_ffff_ffff_ff4f_bfff_ffff_ffff_ffffu128 == 0 &&
        0x3782883ac36a794195014af1e4e5b70du128 & !0xffff_ffff_ffff_ff4f_bfff_ffff_ffff_ffffu128 == 0 &&
        0x3799ccaed9386e48920f339f7c0988d7u128 & !0xffff_ffff_ffff_ff4f_bfff_ffff_ffff_ffffu128 == 0 &&
        0x37bc9161852e1b4b8ecdde5ab9f81588u128 & !0xffff_ffff_ffff_ff4f_bfff_ffff_ffff_ffffu128 == 0 &&
        0x37f806516090c74994397f51685a08e8u128 & !0xffff_ffff_ffff_ff4f_bfff_ffff_ffff_ffffu128 == 0 &&
        0x384f2a55c7086041b07ef257b22160a0u128 & !0xffff_ffff_ffff_ff4f_bfff_ffff_ffff_ffffu128 == 0 &&
        0x398ef6e95eeb01428347dd8c40cee09du128 & !0xffff_ffff_ffff_ff4f_bfff_ffff_ffff_ffffu128 == 0 &&
        0x3bf63e00973baf46a53a0dfaaef63a31u128 & !0xffff_ffff_ffff_ff4f_bfff_ffff_ffff_ffffu128 == 0 &&
        0x3c32a619fbe9ca43837375c70d0ed607u128 & !0xffff_ffff_ffff_ff4f_bfff_ffff_ffff_ffffu128 == 0 &&
        0x3d65919cd4e8eb40b1f5f6826d4871fau128 & !0xffff_ffff_ffff_ff4f_bfff_ffff_ffff_ffffu128 == 0 &&
        0x3e5c9a09c8c3a34aaed79e49219826e8u128 & !0xffff_ffff_ffff_ff4f_bfff_ffff_ffff_ffffu128 == 0 &&
        0x40838542941228448874dcdffc9105c8u128 & !0xffff_ffff_ffff_ff4f_bfff_ffff_ffff_ffffu128 == 0 &&
        0x42176da2f713934592a4c014b01205e9u128 & !0xffff_ffff_ffff_ff4f_bfff_ffff_ffff_ffffu128 == 0 &&
        0x4243bbe99d8f014abc883e1cb9cfcfe0u128 & !0xffff_ffff_ffff_ff4f_bfff_ffff_ffff_ffffu128 == 0 &&
        0x44b1d05057f6d34b8b663297e5ac6433u128 & !0xffff_ffff_ffff_ff4f_bfff_ffff_ffff_ffffu128 == 0 &&
        0x44c0d34652131949b56606c8816ab55fu128 & !0xffff_ffff_ffff_ff4f_bfff_ffff_ffff_ffffu128 == 0 &&
        0x46651e78f6fef0419b15a460563097b0u128 & !0xffff_ffff_ffff_ff4f_bfff_ffff_ffff_ffffu128 == 0 &&
        0x46d65ef39b095243b96f5c557603e5a9u128 & !0xffff_ffff_ffff_ff4f_bfff_ffff_ffff_ffffu128 == 0 &&
        0x47f63e2d309cd24c9d97a2fc4aae439bu128 & !0xffff_ffff_ffff_ff4f_bfff_ffff_ffff_ffffu128 == 0 &&
        0x495ff8060731c14db86086dea7e93be2u128 & !0xffff_ffff_ffff_ff4f_bfff_ffff_ffff_ffffu128 == 0 &&
        0x497f9ae09e1e7a4da7989ced5de3d4ddu128 & !0xffff_ffff_ffff_ff4f_bfff_ffff_ffff_ffffu128 == 0 &&
        0x49be7e552bb09645a94fa562462277beu128 & !0xffff_ffff_ffff_ff4f_bfff_ffff_ffff_ffffu128 == 0 &&
        0x4a6502d0973d144b8278a73f64933122u128 & !0xffff_ffff_ffff_ff4f_bfff_ffff_ffff_ffffu128 == 0 &&
        0x4b4dda5a37d7f747a96c2732b6ef7fc7u128 & !0xffff_ffff_ffff_ff4f_bfff_ffff_ffff_ffffu128 == 0 &&
        0x4bc00b72938c604a89a20d6fdaaf1431u128 & !0xffff_ffff_ffff_ff4f_bfff_ffff_ffff_ffffu128 == 0 &&
        0x4bead0a35f6bdb42b42f43d17abdf233u128 & !0xffff_ffff_ffff_ff4f_bfff_ffff_ffff_ffffu128 == 0 &&
        0x4d23cf5bd1027b4ebe306cd1d62d16bdu128 & !0xffff_ffff_ffff_ff4f_bfff_ffff_ffff_ffffu128 == 0 &&
        0x4d333c3be3140e4cb4ebffcbc2f4a8f3u128 & !0xffff_ffff_ffff_ff4f_bfff_ffff_ffff_ffffu128 == 0 &&
        0x4d7d9392d65eec4581f6cf8caa50d080u128 & !0xffff_ffff_ffff_ff4f_bfff_ffff_ffff_ffffu128 == 0 &&
        0x4dc4b9f5c53c5f46849b776cecdaa2c6u128 & !0xffff_ffff_ffff_ff4f_bfff_ffff_ffff_ffffu128 == 0 &&
        0x4f877ef169c0fd488748987a3d7897a4u128 & !0xffff_ffff_ffff_ff4f_bfff_ffff_ffff_ffffu128 == 0 &&
        0x4fd11ba38d620347815cd631f2eca2b3u128 & !0xffff_ffff_ffff_ff4f_bfff_ffff_ffff_ffffu128 == 0 &&
        0x4fd4cdd1962e994682c5c4918cefea4fu128 & !0xffff_ffff_ffff_ff4f_bfff_ffff_ffff_ffffu128 == 0 &&
        0x5009808f7f4cdc4db33e7557178ea464u128 & !0xffff_ffff_ffff_ff4f_bfff_ffff_ffff_ffffu128 == 0 &&
        0x54342164fa3eae45a4cf0a336addbb7fu128 & !0xffff_ffff_ffff_ff4f_bfff_ffff_ffff_ffffu128 == 0 &&
        0x564383c3efb4ce4f8ae0591a8e93e3c1u128 & !0xffff_ffff_ffff_ff4f_bfff_ffff_ffff_ffffu128 == 0 &&
        0x578dad5e26c84747b8bbaae22076193bu128 & !0xffff_ffff_ffff_ff4f_bfff_ffff_ffff_ffffu128 == 0 &&
        0x5b0306a98894ec4ea5a7b203e3ba61a8u128 & !0xffff_ffff_ffff_ff4f_bfff_ffff_ffff_ffffu128 == 0 &&
        0x5c06c63d73e00c4b8389e403a9b03d31u128 & !0xffff_ffff_ffff_ff4f_bfff_ffff_ffff_ffffu128 == 0 &&
        0x5cf6980a306a744a81c4422c54b3f4a0u128 & !0xffff_ffff_ffff_ff4f_bfff_ffff_ffff_ffffu128 == 0 &&
        0x5d38351f53e8a64bb98315bcb1e8b95du128 & !0xffff_ffff_ffff_ff4f_bfff_ffff_ffff_ffffu128 == 0 &&
        0x5e271fd134fba44685cbfc75ba4eee79u128 & !0xffff_ffff_ffff_ff4f_bfff_ffff_ffff_ffffu128 == 0 &&
        0x628f613f0e8c7f4eb4077beac123b818u128 & !0xffff_ffff_ffff_ff4f_bfff_ffff_ffff_ffffu128 == 0 &&
        0x6494e66c6763024f9710a8a12181c4bbu128 & !0xffff_ffff_ffff_ff4f_bfff_ffff_ffff_ffffu128 == 0 &&
        0x6631fa68f5e797478e76495a3ec44d00u128 & !0xffff_ffff_ffff_ff4f_bfff_ffff_ffff_ffffu128 == 0 &&
        0x67163d38d633f344a22cd48e6ef8cdcdu128 & !0xffff_ffff_ffff_ff4f_bfff_ffff_ffff_ffffu128 == 0 &&
        0x676b83b37e09f844aeeb8fa2f581a7c5u128 & !0xffff_ffff_ffff_ff4f_bfff_ffff_ffff_ffffu128 == 0 &&
        0x678f28b7f7507e459be805588da33f80u128 & !0xffff_ffff_ffff_ff4f_bfff_ffff_ffff_ffffu128 == 0 &&
        0x6889a00fa8dcab41995d18b9326c9e5bu128 & !0xffff_ffff_ffff_ff4f_bfff_ffff_ffff_ffffu128 == 0 &&
        0x6ae43b8a319e5f47af76291941e0714eu128 & !0xffff_ffff_ffff_ff4f_bfff_ffff_ffff_ffffu128 == 0 &&
        0x6b0c1d7839cdb341be45c7901754c1c8u128 & !0xffff_ffff_ffff_ff4f_bfff_ffff_ffff_ffffu128 == 0 &&
        0x6bc1feacfc954a4eae04eacfee541850u128 & !0xffff_ffff_ffff_ff4f_bfff_ffff_ffff_ffffu128 == 0 &&
        0x6c5e22b2389e3b49b43ec3a513ece091u128 & !0xffff_ffff_ffff_ff4f_bfff_ffff_ffff_ffffu128 == 0 &&
        0x6c89f2879000b74cbf9bedd4688f18b3u128 & !0xffff_ffff_ffff_ff4f_bfff_ffff_ffff_ffffu128 == 0 &&
        0x6d181495aa102744bb33dd7332974074u128 & !0xffff_ffff_ffff_ff4f_bfff_ffff_ffff_ffffu128 == 0 &&
        0x6dafb7550fb318498309f535dae6aa68u128 & !0xffff_ffff_ffff_ff4f_bfff_ffff_ffff_ffffu128 == 0 &&
        0x6f1becbe0e739e4e93aa220aabc1f492u128 & !0xffff_ffff_ffff_ff4f_bfff_ffff_ffff_ffffu128 == 0 &&
        0x6f346058dac1744e818d4686cbc1b5b6u128 & !0xffff_ffff_ffff_ff4f_bfff_ffff_ffff_ffffu128 == 0 &&
        0x7081aca4ce28614d9eb517e321cb8208u128 & !0xffff_ffff_ffff_ff4f_bfff_ffff_ffff_ffffu128 == 0 &&
        0x70cb348348375947992500126fba267bu128 & !0xffff_ffff_ffff_ff4f_bfff_ffff_ffff_ffffu128 == 0 &&
        0x715b0b77199efe41925368d69589d7ceu128 & !0xffff_ffff_ffff_ff4f_bfff_ffff_ffff_ffffu128 == 0 &&
        0x717a416a5df6a74f91da903a84dd39ebu128 & !0xffff_ffff_ffff_ff4f_bfff_ffff_ffff_ffffu128 == 0 &&
        0x72c68d656f39be43bcb8843d5c37b58bu128 & !0xffff_ffff_ffff_ff4f_bfff_ffff_ffff_ffffu128 == 0 &&
        0x736ccc2daa24994e865093187d2dcdfdu128 & !0xffff_ffff_ffff_ff4f_bfff_ffff_ffff_ffffu128 == 0 &&
        0x77737e07f2670d428075544127a9ef15u128 & !0xffff_ffff_ffff_ff4f_bfff_ffff_ffff_ffffu128 == 0 &&
        0x7811b4521ac18a4cb89d4c7cd6b3db2fu128 & !0xffff_ffff_ffff_ff4f_bfff_ffff_ffff_ffffu128 == 0 &&
        0x78ebe627adb97f4c866af600498b5861u128 & !0xffff_ffff_ffff_ff4f_bfff_ffff_ffff_ffffu128 == 0 &&
        0x798a7520f7eea54195213ae456181927u128 & !0xffff_ffff_ffff_ff4f_bfff_ffff_ffff_ffffu128 == 0 &&
        0x7d262fe23e7e78439bc09115868052beu128 & !0xffff_ffff_ffff_ff4f_bfff_ffff_ffff_ffffu128 == 0 &&
        0x7d8a17d9a9939742ab66eacf2a353d82u128 & !0xffff_ffff_ffff_ff4f_bfff_ffff_ffff_ffffu128 == 0 &&
        0x7db0201ccf6edf4da97853120b44e275u128 & !0xffff_ffff_ffff_ff4f_bfff_ffff_ffff_ffffu128 == 0 &&
        0x7e802933ce214f41a9130e06685bf7f3u128 & !0xffff_ffff_ffff_ff4f_bfff_ffff_ffff_ffffu128 == 0 &&
        0x7e85a25c9642104290c742e63b520c9fu128 & !0xffff_ffff_ffff_ff4f_bfff_ffff_ffff_ffffu128 == 0 &&
        0x7ff48eebca80194facc3af53f46116a3u128 & !0xffff_ffff_ffff_ff4f_bfff_ffff_ffff_ffffu128 == 0 &&
        0x803420866e628a4dacc9872826a50f16u128 & !0xffff_ffff_ffff_ff4f_bfff_ffff_ffff_ffffu128 == 0 &&
        0x81bebfde45816342a511679ec77aee0eu128 & !0xffff_ffff_ffff_ff4f_bfff_ffff_ffff_ffffu128 == 0 &&
        0x8247c8c18ce7ee41a11ba316f6ec419bu128 & !0xffff_ffff_ffff_ff4f_bfff_ffff_ffff_ffffu128 == 0 &&
        0x82b6018f1212dc4fbe966aea7a7b8af0u128 & !0xffff_ffff_ffff_ff4f_bfff_ffff_ffff_ffffu128 == 0 &&
        0x831d9429eb4a5949b905f661883e6985u128 & !0xffff_ffff_ffff_ff4f_bfff_ffff_ffff_ffffu128 == 0 &&
        0x8467a277dca4f341aa20de48525a7c6bu128 & !0xffff_ffff_ffff_ff4f_bfff_ffff_ffff_ffffu128 == 0 &&
        0x850f8ccf29ecd143b8a0ca7b806d1df0u128 & !0xffff_ffff_ffff_ff4f_bfff_ffff_ffff_ffffu128 == 0 &&
        0x854d8bf7755f414fa3bad9d10b474a83u128 & !0xffff_ffff_ffff_ff4f_bfff_ffff_ffff_ffffu128 == 0 &&
        0x861f0f034d63c44cad9fd2ae8a1709ddu128 & !0xffff_ffff_ffff_ff4f_bfff_ffff_ffff_ffffu128 == 0 &&
        0x8631f1cec1b98940a4686d1e19de766cu128 & !0xffff_ffff_ffff_ff4f_bfff_ffff_ffff_ffffu128 == 0 &&
        0x86cf9268fa5e854bbc65bc2cb894af5fu128 & !0xffff_ffff_ffff_ff4f_bfff_ffff_ffff_ffffu128 == 0 &&
        0x876f5348d191a349bf0e6791af606a0fu128 & !0xffff_ffff_ffff_ff4f_bfff_ffff_ffff_ffffu128 == 0 &&
        0x8837657c5c0a9143bd1dbba6cf299c78u128 & !0xffff_ffff_ffff_ff4f_bfff_ffff_ffff_ffffu128 == 0 &&
        0x887620dc3758014292fae201691a4da8u128 & !0xffff_ffff_ffff_ff4f_bfff_ffff_ffff_ffffu128 == 0 &&
        0x889cf3c629d2374b89223aedf4cdda18u128 & !0xffff_ffff_ffff_ff4f_bfff_ffff_ffff_ffffu128 == 0 &&
        0x896881afdb82c94081b9bf88216d9b66u128 & !0xffff_ffff_ffff_ff4f_bfff_ffff_ffff_ffffu128 == 0 &&
        0x8cabc283d9d89a429f027e3e86dfd8e8u128 & !0xffff_ffff_ffff_ff4f_bfff_ffff_ffff_ffffu128 == 0 &&
        0x8e1634465ab12e45baf5c9450865c42cu128 & !0xffff_ffff_ffff_ff4f_bfff_ffff_ffff_ffffu128 == 0 &&
        0x8f6493db261fc24dbfb4121ac88dec42u128 & !0xffff_ffff_ffff_ff4f_bfff_ffff_ffff_ffffu128 == 0 &&
        0x950ec6a652758a45b42bf4215caec6bcu128 & !0xffff_ffff_ffff_ff4f_bfff_ffff_ffff_ffffu128 == 0 &&
        0x958110a388c9bc41b146a25ad8c076e4u128 & !0xffff_ffff_ffff_ff4f_bfff_ffff_ffff_ffffu128 == 0 &&
        0x967e5cfd9bdd09448c55664bffe9b7cbu128 & !0xffff_ffff_ffff_ff4f_bfff_ffff_ffff_ffffu128 == 0 &&
        0x968ac04c58644e47994184e160e1daceu128 & !0xffff_ffff_ffff_ff4f_bfff_ffff_ffff_ffffu128 == 0 &&
        0x969df57229d62c4f991a0b62b2ea1abau128 & !0xffff_ffff_ffff_ff4f_bfff_ffff_ffff_ffffu128 == 0 &&
        0x97192098dc2a8d4b9ad2c45e7b6a4326u128 & !0xffff_ffff_ffff_ff4f_bfff_ffff_ffff_ffffu128 == 0 &&
        0x98fe57a076775a4f83b0593760b031ceu128 & !0xffff_ffff_ffff_ff4f_bfff_ffff_ffff_ffffu128 == 0 &&
        0x9b92758d074e7d428cf6becd66332928u128 & !0xffff_ffff_ffff_ff4f_bfff_ffff_ffff_ffffu128 == 0 &&
        0xa1165899215db24d81141d373eac92dbu128 & !0xffff_ffff_ffff_ff4f_bfff_ffff_ffff_ffffu128 == 0 &&
        0xa320317e77a99041b8e958edbd0597a7u128 & !0xffff_ffff_ffff_ff4f_bfff_ffff_ffff_ffffu128 == 0 &&
        0xa35a3958ea20504db9e58562e372a571u128 & !0xffff_ffff_ffff_ff4f_bfff_ffff_ffff_ffffu128 == 0 &&
        0xa3bf2379b2f69e47b35dd1c9eb103758u128 & !0xffff_ffff_ffff_ff4f_bfff_ffff_ffff_ffffu128 == 0 &&
        0xa5ea9a62b137f54ba95825cf63f3e0a0u128 & !0xffff_ffff_ffff_ff4f_bfff_ffff_ffff_ffffu128 == 0 &&
        0xa7e9bb8a34baba4baacee053e4d13f94u128 & !0xffff_ffff_ffff_ff4f_bfff_ffff_ffff_ffffu128 == 0 &&
        0xaae94b54552dce4d909bcad9b5fa450fu128 & !0xffff_ffff_ffff_ff4f_bfff_ffff_ffff_ffffu128 == 0 &&
        0xab98872edf55114fb5ebac783499abe1u128 & !0xffff_ffff_ffff_ff4f_bfff_ffff_ffff_ffffu128 == 0 &&
        0xac6545809f06c9478fa11933df7735b3u128 & !0xffff_ffff_ffff_ff4f_bfff_ffff_ffff_ffffu128 == 0 &&
        0xac8e64ef2b591f44bbc902d99c507f9du128 & !0xffff_ffff_ffff_ff4f_bfff_ffff_ffff_ffffu128 == 0 &&
        0xad05844ec0c6744f8047c37734f7f05eu128 & !0xffff_ffff_ffff_ff4f_bfff_ffff_ffff_ffffu128 == 0 &&
        0xad36d89327305a4bbe61ed4508125bbfu128 & !0xffff_ffff_ffff_ff4f_bfff_ffff_ffff_ffffu128 == 0 &&
        0xad659764d9db2948bb7630cf68a4edb5u128 & !0xffff_ffff_ffff_ff4f_bfff_ffff_ffff_ffffu128 == 0 &&
        0xad73bcc701b5324ab323fda953e3bfa9u128 & !0xffff_ffff_ffff_ff4f_bfff_ffff_ffff_ffffu128 == 0 &&
        0xad766176d6cadc40bc2bf72eebeaff5eu128 & !0xffff_ffff_ffff_ff4f_bfff_ffff_ffff_ffffu128 == 0 &&
        0xad7ea17aced4aa4c878c4c8a6c56964du128 & !0xffff_ffff_ffff_ff4f_bfff_ffff_ffff_ffffu128 == 0 &&
        0xadb66118237b51459c80bb0d66465720u128 & !0xffff_ffff_ffff_ff4f_bfff_ffff_ffff_ffffu128 == 0 &&
        0xb4204475c214864e802fe5fab02ba3b1u128 & !0xffff_ffff_ffff_ff4f_bfff_ffff_ffff_ffffu128 == 0 &&
        0xb5c41f8fa5ce1d4585480c7f5b471cd4u128 & !0xffff_ffff_ffff_ff4f_bfff_ffff_ffff_ffffu128 == 0 &&
        0xb60583f1f6ce0445aae0a7ef60337f05u128 & !0xffff_ffff_ffff_ff4f_bfff_ffff_ffff_ffffu128 == 0 &&
        0xb64b7d24f03657409600ef837e3f051du128 & !0xffff_ffff_ffff_ff4f_bfff_ffff_ffff_ffffu128 == 0 &&
        0xb661d3cfa1e4ac4f9152d37de16ea5c9u128 & !0xffff_ffff_ffff_ff4f_bfff_ffff_ffff_ffffu128 == 0 &&
        0xb67643f81e4bb34a80c81b5dcf8ca84cu128 & !0xffff_ffff_ffff_ff4f_bfff_ffff_ffff_ffffu128 == 0 &&
        0xb72197aee7028d47b4155c8fd580e953u128 & !0xffff_ffff_ffff_ff4f_bfff_ffff_ffff_ffffu128 == 0 &&
        0xb744f809200f9c4ab8aef1c0565f38f9u128 & !0xffff_ffff_ffff_ff4f_bfff_ffff_ffff_ffffu128 == 0 &&
        0xb77ff76bc7256e4cb60d06b483f38382u128 & !0xffff_ffff_ffff_ff4f_bfff_ffff_ffff_ffffu128 == 0 &&
        0xb8b1c3c232c57a4b98698de1d09c19a1u128 & !0xffff_ffff_ffff_ff4f_bfff_ffff_ffff_ffffu128 == 0 &&
        0xb9727f7efb19dd4480b354a9893ad9d6u128 & !0xffff_ffff_ffff_ff4f_bfff_ffff_ffff_ffffu128 == 0 &&
        0xb9d4233425a50346b092fe8b847e79b9u128 & !0xffff_ffff_ffff_ff4f_bfff_ffff_ffff_ffffu128 == 0 &&
        0xbb23c3834b43dd4e982b3d7c6d57643eu128 & !0xffff_ffff_ffff_ff4f_bfff_ffff_ffff_ffffu128 == 0 &&
        0xbcecf31e8e0a7c4eb4c19dd0d6cdfc18u128 & !0xffff_ffff_ffff_ff4f_bfff_ffff_ffff_ffffu128 == 0 &&
        0xbced683e1952b948a1fdc740664dc7aau128 & !0xffff_ffff_ffff_ff4f_bfff_ffff_ffff_ffffu128 == 0 &&
        0xbd75d9034daa404cab7824856ed2c938u128 & !0xffff_ffff_ffff_ff4f_bfff_ffff_ffff_ffffu128 == 0 &&
        0xbe20b7f01b8e684bb24e554345d17482u128 & !0xffff_ffff_ffff_ff4f_bfff_ffff_ffff_ffffu128 == 0 &&
        0xbed99ef37097834a83038fd82ba36ac0u128 & !0xffff_ffff_ffff_ff4f_bfff_ffff_ffff_ffffu128 == 0 &&
        0xbefa65fe957c0745b7ddeae7af0df58eu128 & !0xffff_ffff_ffff_ff4f_bfff_ffff_ffff_ffffu128 == 0 &&
        0xbfbbe77b1235c547a6692992927d1034u128 & !0xffff_ffff_ffff_ff4f_bfff_ffff_ffff_ffffu128 == 0 &&
        0xbfd4aa6b90dc0a489b762dbd0246a436u128 & !0xffff_ffff_ffff_ff4f_bfff_ffff_ffff_ffffu128 == 0 &&
        0xc0358079ea002b4980c7785b175b4c94u128 & !0xffff_ffff_ffff_ff4f_bfff_ffff_ffff_ffffu128 == 0 &&
        0xc03b119cbe672a4c98bca803e9570f1eu128 & !0xffff_ffff_ffff_ff4f_bfff_ffff_ffff_ffffu128 == 0 &&
        0xc1b815ba9767cc41a57ba7fcb5ecd961u128 & !0xffff_ffff_ffff_ff4f_bfff_ffff_ffff_ffffu128 == 0 &&
        0xc210cff6bb5bba42aca1c9ebaa7a9a2du128 & !0xffff_ffff_ffff_ff4f_bfff_ffff_ffff_ffffu128 == 0 &&
        0xc5160892fb2c77498f63754882b9d0e4u128 & !0xffff_ffff_ffff_ff4f_bfff_ffff_ffff_ffffu128 == 0 &&
        0xc5eecb353ad2b54b92f0f3029fa298b1u128 & !0xffff_ffff_ffff_ff4f_bfff_ffff_ffff_ffffu128 == 0 &&
        0xc6f353d7f0d8714b92a54eabae62ffe0u128 & !0xffff_ffff_ffff_ff4f_bfff_ffff_ffff_ffffu128 == 0 &&
        0xc76d6c69db61804d85b4359224a20d19u128 & !0xffff_ffff_ffff_ff4f_bfff_ffff_ffff_ffffu128 == 0 &&
        0xc80836c140a42746ba11fde6f7a5b263u128 & !0xffff_ffff_ffff_ff4f_bfff_ffff_ffff_ffffu128 == 0 &&
        0xc8cdc09b83eac943880724caccceac3cu128 & !0xffff_ffff_ffff_ff4f_bfff_ffff_ffff_ffffu128 == 0 &&
        0xc8dedffbdb445c42a504db24a8fe846cu128 & !0xffff_ffff_ffff_ff4f_bfff_ffff_ffff_ffffu128 == 0 &&
        0xc8f544583ab0d043aa176239feef844cu128 & !0xffff_ffff_ffff_ff4f_bfff_ffff_ffff_ffffu128 == 0 &&
        0xca552f98048a9448b20adc82b0d44a5au128 & !0xffff_ffff_ffff_ff4f_bfff_ffff_ffff_ffffu128 == 0 &&
        0xcabc8761780c584cbdebd811b9a0ceebu128 & !0xffff_ffff_ffff_ff4f_bfff_ffff_ffff_ffffu128 == 0 &&
        0xcad446cbce17fe45b5a1d1d80812020du128 & !0xffff_ffff_ffff_ff4f_bfff_ffff_ffff_ffffu128 == 0 &&
        0xcb19d0c5eb941d43b6da99be2d0bb80au128 & !0xffff_ffff_ffff_ff4f_bfff_ffff_ffff_ffffu128 == 0 &&
        0xcb50acf0b474294c822940090483b23au128 & !0xffff_ffff_ffff_ff4f_bfff_ffff_ffff_ffffu128 == 0 &&
        0xcb5c4b8b1294cd448a4fb373eda5242du128 & !0xffff_ffff_ffff_ff4f_bfff_ffff_ffff_ffffu128 == 0 &&
        0xcbbd071ee2d6774ba984ed87fa1bd919u128 & !0xffff_ffff_ffff_ff4f_bfff_ffff_ffff_ffffu128 == 0 &&
        0xcd4783378169604cb25872214c881916u128 & !0xffff_ffff_ffff_ff4f_bfff_ffff_ffff_ffffu128 == 0 &&
        0xd09f69c9e169e94e8a3040178ae3471fu128 & !0xffff_ffff_ffff_ff4f_bfff_ffff_ffff_ffffu128 == 0 &&
        0xd2ea4e826d07d14b99fa1d98bd18e606u128 & !0xffff_ffff_ffff_ff4f_bfff_ffff_ffff_ffffu128 == 0 &&
        0xd37bf1ada946ab4085c755cac6339c04u128 & !0xffff_ffff_ffff_ff4f_bfff_ffff_ffff_ffffu128 == 0 &&
        0xd3d01e9f1220a24ca4c0c4c2309cf6e3u128 & !0xffff_ffff_ffff_ff4f_bfff_ffff_ffff_ffffu128 == 0 &&
        0xd45ad3279a3ce74ca796ae1d44398c6cu128 & !0xffff_ffff_ffff_ff4f_bfff_ffff_ffff_ffffu128 == 0 &&
        0xd48e564405f4a14eb322fef212fa9f99u128 & !0xffff_ffff_ffff_ff4f_bfff_ffff_ffff_ffffu128 == 0 &&
        0xd9041dc42e1413428e338dabf36f844du128 & !0xffff_ffff_ffff_ff4f_bfff_ffff_ffff_ffffu128 == 0 &&
        0xd992c426fc587f40804e5d65062ddcb9u128 & !0xffff_ffff_ffff_ff4f_bfff_ffff_ffff_ffffu128 == 0 &&
        0xdb198e4b89ecfc468c623057aeb8618au128 & !0xffff_ffff_ffff_ff4f_bfff_ffff_ffff_ffffu128 == 0 &&
        0xdba9b155e39d774481e5949a1bf849d3u128 & !0xffff_ffff_ffff_ff4f_bfff_ffff_ffff_ffffu128 == 0 &&
        0xdc728d1addf4e540b6ddf193f0e29c2fu128 & !0xffff_ffff_ffff_ff4f_bfff_ffff_ffff_ffffu128 == 0 &&
        0xdcacbc3ef771a9428c45765ad312c5d8u128 & !0xffff_ffff_ffff_ff4f_bfff_ffff_ffff_ffffu128 == 0 &&
        0xdcca1e614c751d44bac4d0c132cb2c8au128 & !0xffff_ffff_ffff_ff4f_bfff_ffff_ffff_ffffu128 == 0 &&
        0xdd61270ca89b634f9626fb6af7eb66b8u128 & !0xffff_ffff_ffff_ff4f_bfff_ffff_ffff_ffffu128 == 0 &&
        0xdde5d6524b165e4fb9abd316e76ae087u128 & !0xffff_ffff_ffff_ff4f_bfff_ffff_ffff_ffffu128 == 0 &&
        0xde694203a0ba9b4188df038d64afdaaau128 & !0xffff_ffff_ffff_ff4f_bfff_ffff_ffff_ffffu128 == 0 &&
        0xdf58a58058b67f449cbc96c589af8ea6u128 & !0xffff_ffff_ffff_ff4f_bfff_ffff_ffff_ffffu128 == 0 &&
        0xdfba19f3de17ee41b60ead04e6610a0du128 & !0xffff_ffff_ffff_ff4f_bfff_ffff_ffff_ffffu128 == 0 &&
        0xe041f1e264213548be5aeb90b501797cu128 & !0xffff_ffff_ffff_ff4f_bfff_ffff_ffff_ffffu128 == 0 &&
        0xe0d2813acb30c941a9540f983fe4f99eu128 & !0xffff_ffff_ffff_ff4f_bfff_ffff_ffff_ffffu128 == 0 &&
        0xe15eadc2b214704284d75b689beb435du128 & !0xffff_ffff_ffff_ff4f_bfff_ffff_ffff_ffffu128 == 0 &&
        0xe16a49ca238a544a82c11f7d978ecc90u128 & !0xffff_ffff_ffff_ff4f_bfff_ffff_ffff_ffffu128 == 0 &&
        0xe1d34aaf98bcec47831aaf5ca1a59826u128 & !0xffff_ffff_ffff_ff4f_bfff_ffff_ffff_ffffu128 == 0 &&
        0xe2c516c0fd15ba43856d74f560031af6u128 & !0xffff_ffff_ffff_ff4f_bfff_ffff_ffff_ffffu128 == 0 &&
        0xe2fe5ed35fa01148933674097af3691au128 & !0xffff_ffff_ffff_ff4f_bfff_ffff_ffff_ffffu128 == 0 &&
        0xe307dee876c1f6408dec20dc17bfcf39u128 & !0xffff_ffff_ffff_ff4f_bfff_ffff_ffff_ffffu128 == 0 &&
        0xe3848cc1949b464390c90989e39f18d5u128 & !0xffff_ffff_ffff_ff4f_bfff_ffff_ffff_ffffu128 == 0 &&
        0xe403ce0f851f4a419d926f5659d02f2cu128 & !0xffff_ffff_ffff_ff4f_bfff_ffff_ffff_ffffu128 == 0 &&
        0xe64776d2119cc54b93958fba2586ae74u128 & !0xffff_ffff_ffff_ff4f_bfff_ffff_ffff_ffffu128 == 0 &&
        0xe6538542a2dffa4390ab4cdb22fd0c2bu128 & !0xffff_ffff_ffff_ff4f_bfff_ffff_ffff_ffffu128 == 0 &&
        0xe876db02d2c51943a2fa4ab4e84ad074u128 & !0xffff_ffff_ffff_ff4f_bfff_ffff_ffff_ffffu128 == 0 &&
        0xe8ba432f6ed0b845b43d90a6df9371e7u128 & !0xffff_ffff_ffff_ff4f_bfff_ffff_ffff_ffffu128 == 0 &&
        0xe8e89e487d00ea42859aab9cb67f7f69u128 & !0xffff_ffff_ffff_ff4f_bfff_ffff_ffff_ffffu128 == 0 &&
        0xe8ff28847187fd468200c104e6316846u128 & !0xffff_ffff_ffff_ff4f_bfff_ffff_ffff_ffffu128 == 0 &&
        0xe93ce8ef6ebc304aa0c85c671af2ca52u128 & !0xffff_ffff_ffff_ff4f_bfff_ffff_ffff_ffffu128 == 0 &&
        0xe9988e0e7a17aa468d5af6aac868e7c2u128 & !0xffff_ffff_ffff_ff4f_bfff_ffff_ffff_ffffu128 == 0 &&
        0xe9ebd675e2c64f4b802ded3be7e9e183u128 & !0xffff_ffff_ffff_ff4f_bfff_ffff_ffff_ffffu128 == 0 &&
        0xeb45feed54a5c54aba41ab3e2b0b3330u128 & !0xffff_ffff_ffff_ff4f_bfff_ffff_ffff_ffffu128 == 0 &&
        0xef7c75216f9c714488ff46c87163053fu128 & !0xffff_ffff_ffff_ff4f_bfff_ffff_ffff_ffffu128 == 0 &&
        0xf02b4228f2df64438e16f9b50e157ea1u128 & !0xffff_ffff_ffff_ff4f_bfff_ffff_ffff_ffffu128 == 0 &&
        0xf1528c99b036dc49b57fe30164a3b6bcu128 & !0xffff_ffff_ffff_ff4f_bfff_ffff_ffff_ffffu128 == 0 &&
        0xf1842fe87e5f3744b2943738a767d3fbu128 & !0xffff_ffff_ffff_ff4f_bfff_ffff_ffff_ffffu128 == 0 &&
        0xf2996d19ec47004c852f696339ed2831u128 & !0xffff_ffff_ffff_ff4f_bfff_ffff_ffff_ffffu128 == 0 &&
        0xf344f4d3eef58b45b3fae364d38773bdu128 & !0xffff_ffff_ffff_ff4f_bfff_ffff_ffff_ffffu128 == 0 &&
        0xf3b3d2820f4644498653d3084405d786u128 & !0xffff_ffff_ffff_ff4f_bfff_ffff_ffff_ffffu128 == 0 &&
        0xf4417dbb45757947ad95e06791084790u128 & !0xffff_ffff_ffff_ff4f_bfff_ffff_ffff_ffffu128 == 0 &&
        0xf4aff564d0a01444abbdaa1030e1f7cbu128 & !0xffff_ffff_ffff_ff4f_bfff_ffff_ffff_ffffu128 == 0 &&
        0xf51d2d7e3b0dfa48844d404b7820a61bu128 & !0xffff_ffff_ffff_ff4f_bfff_ffff_ffff_ffffu128 == 0 &&
        0xf6aade18fd88c342b0ba5a0da4d1534au128 & !0xffff_ffff_ffff_ff4f_bfff_ffff_ffff_ffffu128 == 0 &&
        0xf7b97f7ff92d6f4ca812ab886bbe6272u128 & !0xffff_ffff_ffff_ff4f_bfff_ffff_ffff_ffffu128 == 0 &&
        0xf7c37e608ff55943acfbea8f625b7eeeu128 & !0xffff_ffff_ffff_ff4f_bfff_ffff_ffff_ffffu128 == 0 &&
        0xf7c6996189eb5d458a5e17945c7a0b2fu128 & !0xffff_ffff_ffff_ff4f_bfff_ffff_ffff_ffffu128 == 0 &&
        0xf8faa82ca8a6494399b4a30ba394075eu128 & !0xffff_ffff_ffff_ff4f_bfff_ffff_ffff_ffffu128 == 0 &&
        0xf97c1a38c37a7944accedbf2c2b99755u128 & !0xffff_ffff_ffff_ff4f_bfff_ffff_ffff_ffffu128 == 0 &&
        0xf9aa367c193ece42b74137551f87ea1cu128 & !0xffff_ffff_ffff_ff4f_bfff_ffff_ffff_ffffu128 == 0 &&
        0xf9b005e91e9a894d807e7f13fe8298e2u128 & !0xffff_ffff_ffff_ff4f_bfff_ffff_ffff_ffffu128 == 0 &&
        0xfa0b4ed1aa860c4387f939bad76c00a0u128 & !0xffff_ffff_ffff_ff4f_bfff_ffff_ffff_ffffu128 == 0 &&
        0xfa111361c98a1f479e5f3905a678607au128 & !0xffff_ffff_ffff_ff4f_bfff_ffff_ffff_ffffu128 == 0 &&
        0xfa16ab3300f4a34384c6e32a4faddf4du128 & !0xffff_ffff_ffff_ff4f_bfff_ffff_ffff_ffffu128 == 0 &&
        0xfa5c057b2bc35040b20be02e55f013a2u128 & !0xffff_ffff_ffff_ff4f_bfff_ffff_ffff_ffffu128 == 0 &&
        0xfb06b953f85dc34987288d4f8250de1au128 & !0xffff_ffff_ffff_ff4f_bfff_ffff_ffff_ffffu128 == 0 &&
        0xfbb1f75860f0c844832379641f305d19u128 & !0xffff_ffff_ffff_ff4f_bfff_ffff_ffff_ffffu128 == 0 &&
        0xfc0ba7f875be0e4386cad5666129f921u128 & !0xffff_ffff_ffff_ff4f_bfff_ffff_ffff_ffffu128 == 0 &&
        0xfe152f8fcf7d1a458fd1b9e30cdd4e0fu128 & !0xffff_ffff_ffff_ff4f_bfff_ffff_ffff_ffffu128 == 0 &&
        0xfe3a85c207f712429452a1f355689dcfu128 & !0xffff_ffff_ffff_ff4f_bfff_ffff_ffff_ffffu128 == 0 &&
        0xfea94ff2bb14a54889a6445cd6d7233du128 & !0xffff_ffff_ffff_ff4f_bfff_ffff_ffff_ffffu128 == 0 &&
        0xfee110cc7291cc4aaa22a6b573cc0973u128 & !0xffff_ffff_ffff_ff4f_bfff_ffff_ffff_ffffu128 == 0 &&
        0xff2f8177e1168d478c22b9b31b7531bdu128 & !0xffff_ffff_ffff_ff4f_bfff_ffff_ffff_ffffu128 == 0
    ) by (bit_vector);
    match h {
        HullKey::SprinterCorvette => {},
        HullKey::RainesFrigate => {},
        HullKey::KeystoneDestroyer => {},
        HullKey::VauxhallLightCruiser => {},
        HullKey::AxfordHeavyCruiser => {},
        HullKey::SolomonBattleship => {},
        HullKey::ShuttleClipper => {},
        HullKey::TugboatClipper => {},
        HullKey::CargoFeederMonitor => {},
        HullKey::OcelloCommandCruiser => {},
        HullKey::BulkFreighterLineShip => {},
        HullKey::ContainerLinerLineShip => {},
    }
}

} // verus!

verus! {

/// The bitwise or of the numbers `s`.
pub open spec fn keys_union(s: Seq<u128>) -> u128
    decreases s.len(),
{
    if s.len() == 0 {
        0
    } else {
        keys_union(s.drop_last()) | s.last()
    }
}

/// The values of the keys of the sockets of `h`, in order.
pub open spec fn hull_socket_keys(h: HullKey) -> Seq<u128> {
    h.spec_sockets().map_values(|s: (u128, ComponentKind, Size, Option<Direction>)| s.0)
}

/// The bitwise or of the keys of every socket of every hull.
pub open spec fn all_socket_keys_union() -> u128 {
    keys_union(HullKey::spec_values().map_values(|h: HullKey| keys_union(hull_socket_keys(h))))
}

/// Numbers that set no bit outside `m` have an or that sets none either.
proof fn lemma_union_masked(s: Seq<u128>, m: u128)
    requires
        forall|i: int| 0 <= i < s.len() ==> #[trigger] s[i] & !m == 0,
    ensures
        keys_union(s) & !m == 0,
    decreases s.len(),
{
    if s.len() == 0 {
        assert(0u128 & !m == 0) by (bit_vector);
    } else {
        lemma_union_masked(s.drop_last(), m);
        let a = keys_union(s.drop_last());
        let b = s.last();
        assert(b == s[s.len() - 1]);
        assert((a | b) & !m == 0) by (bit_vector)
            requires a & !m == 0, b & !m == 0;
    }
}

/// Each number sets no bit that the or of all does not set.
proof fn lemma_union_covers(s: Seq<u128>, i: int)
    requires
        0 <= i < s.len(),
    ensures
        s[i] & !keys_union(s) == 0,
    decreases s.len(),
{
    let a = keys_union(s.drop_last());
    let b = s.last();
    if i == s.len() - 1 {
        assert(b & !(a | b) == 0) by (bit_vector);
    } else {
        lemma_union_covers(s.drop_last(), i);
        let k = s[i];
        assert(s.drop_last()[i] == k);
        assert(k & !(a | b) == 0) by (bit_vector)
            requires k & !a == 0;
    }
}

/// Together the keys of every hull socket set exactly the bits of
/// [`Key::mask_key`].
pub proof fn lemma_socket_keys_union()
    ensures
        all_socket_keys_union() == Key::spec_mask(),
{
    let m = Key::spec_mask();
    let per_hull = HullKey::spec_values().map_values(|h: HullKey| keys_union(hull_socket_keys(h)));
    assert forall|j: int| 0 <= j < per_hull.len() implies #[trigger] per_hull[j] & !m == 0 by {
        let h = HullKey::spec_values()[j];
        assert forall|i: int| 0 <= i < hull_socket_keys(h).len() implies #[trigger] hull_socket_keys(h)[i] & !m == 0 by {
            lemma_socket_keys_masked(h, i);
        }
        lemma_union_masked(hull_socket_keys(h), m);
    }
    lemma_union_masked(per_hull, m);
    let u = keys_union(per_hull);
    let k0 = HullKey::SolomonBattleship.spec_sockets()[0].0;
    let h0 = keys_union(hull_socket_keys(HullKey::SolomonBattleship));
    assert(k0 == 0xbefa65fe957c0745b7ddeae7af0df58eu128);
    assert(hull_socket_keys(HullKey::SolomonBattleship)[0] == k0);
    lemma_union_covers(hull_socket_keys(HullKey::SolomonBattleship), 0);
    assert(HullKey::spec_values()[5] == HullKey::SolomonBattleship);
    assert(per_hull[5] == h0);
    lemma_union_covers(per_hull, 5);
    let k1 = HullKey::OcelloCommandCruiser.spec_sockets()[18].0;
    let h1 = keys_union(hull_socket_keys(HullKey::OcelloCommandCruiser));
    assert(k1 == 0x4b4dda5a37d7f747a96c2732b6ef7fc7u128);
    assert(hull_socket_keys(HullKey::OcelloCommandCruiser)[18] == k1);
    lemma_union_covers(hull_socket_keys(HullKey::OcelloCommandCruiser), 18);
    assert(HullKey::spec_values()[9] == HullKey::OcelloCommandCruiser);
    assert(per_hull[9] == h1);
    lemma_union_covers(per_hull, 9);
    let k2 = HullKey::VauxhallLightCruiser.spec_sockets()[7].0;
    let h2 = keys_union(hull_socket_keys(HullKey::VauxhallLightCruiser));
    assert(k2 == 0xbb23c3834b43dd4e982b3d7c6d57643eu128);
    assert(hull_socket_keys(HullKey::VauxhallLightCruiser)[7] == k2);
    lemma_union_covers(hull_socket_keys(HullKey::VauxhallLightCruiser), 7);
    assert(HullKey::spec_values()[3] == HullKey::VauxhallLightCruiser);
    assert(per_hull[3] == h2);
    lemma_union_covers(per_hull, 3);
    assert(u == m) by (bit_vector)
        requires
            u & !m == 0,
            m == 0xffff_ffff_ffff_ff4f_bfff_ffff_ffff_ffffu128,
            k0 == 0xbefa65fe957c0745b7ddeae7af0df58eu128,
            k1 == 0x4b4dda5a37d7f747a96c2732b6ef7fc7u128,
            k2 == 0xbb23c3834b43dd4e982b3d7c6d57643eu128,
            k0 & !h0 == 0,
            k1 & !h1 == 0,
            k2 & !h2 == 0,
            h0 & !u == 0,
            h1 & !u == 0,
            h2 & !u == 0;
}

} // verus!
